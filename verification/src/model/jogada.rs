//! Validacao da jogada e efeito boop.
use vstd::prelude::*;

use crate::model::tipos::{
    casa, com_casa, consistente, deslocar, direcao_unitaria, indice, lemma_conta_positiva,
    lemma_conta_update, na_grade, tabuleiro_tem_36_casas, vazia_em, Celula, Gato, Jogador, Mao,
    Maos, Peca, Tabuleiro, DIRECOES_BOOP, TAMANHO_TABULEIRO,
};

verus! {

broadcast use tabuleiro_tem_36_casas;

/// Uma jogada ja convertida para indices do tabuleiro (base 0).
#[derive(Debug, Clone, Copy, PartialEq, Eq, Structural)]
pub struct Jogada {
    pub peca: Peca,
    pub linha: usize,
    pub coluna: usize,
}

/// Motivo pelo qual uma jogada foi recusada.
#[derive(Debug, Clone, Copy, PartialEq, Eq, Structural)]
pub enum JogadaInvalida {
    ForaDoTabuleiro,
    CelulaOcupada,
    SemPecas(Peca),
}

impl JogadaInvalida {
    /// Mensagem mostrada ao jogador.
    pub fn mensagem(&self) -> (r: &'static str)
        ensures
            r == (match *self {
                JogadaInvalida::ForaDoTabuleiro => "Posição fora dos limites do tabuleiro!",
                JogadaInvalida::CelulaOcupada => "Célula ocupada!",
                JogadaInvalida::SemPecas(Peca::Gatinho) => "Você não tem gatinhos disponíveis!",
                JogadaInvalida::SemPecas(Peca::Gatao) => "Você não tem gatões disponíveis!",
            }),
    {
        match self {
            JogadaInvalida::ForaDoTabuleiro => "Posição fora dos limites do tabuleiro!",
            JogadaInvalida::CelulaOcupada => "Célula ocupada!",
            JogadaInvalida::SemPecas(Peca::Gatinho) => "Você não tem gatinhos disponíveis!",
            JogadaInvalida::SemPecas(Peca::Gatao) => "Você não tem gatões disponíveis!",
        }
    }
}

/// Veredito sobre colocar `peca` em `(linha, coluna)`: fora do tabuleiro,
/// casa ocupada e falta da peca na mao sao testados nessa ordem.
pub open spec fn veredito(g: Seq<Celula>, linha: int, coluna: int, peca: Peca, mao: Mao) -> Result<
    (),
    JogadaInvalida,
> {
    if !na_grade(linha, coluna) {
        Err(JogadaInvalida::ForaDoTabuleiro)
    } else if !vazia_em(g, linha, coluna) {
        Err(JogadaInvalida::CelulaOcupada)
    } else if !mao.possui(peca) {
        Err(JogadaInvalida::SemPecas(peca))
    } else {
        Ok(())
    }
}

/// Verifica se a peca pode ser colocada na casa indicada. Nao altera nada.
pub fn verificar_jogada(
    tabuleiro: &Tabuleiro,
    linha: usize,
    coluna: usize,
    peca: Peca,
    mao: &Mao,
) -> (r: Result<(), JogadaInvalida>)
    ensures
        r == veredito(tabuleiro@, linha as int, coluna as int, peca, *mao),
{
    if linha >= TAMANHO_TABULEIRO || coluna >= TAMANHO_TABULEIRO {
        return Err(JogadaInvalida::ForaDoTabuleiro);
    }
    if !tabuleiro.vazia(linha, coluna) {
        return Err(JogadaInvalida::CelulaOcupada);
    }
    if !mao.tem(peca) {
        return Err(JogadaInvalida::SemPecas(peca));
    }
    Ok(())
}

/// Grade e maos depois de `dono` colocar `peca` em `(linha, coluna)`, sem
/// empurrar nada. A mao so muda se tiver a peca.
pub open spec fn colocacao(
    g: Seq<Celula>,
    maos: Maos,
    linha: int,
    coluna: int,
    peca: Peca,
    dono: Jogador,
) -> (Seq<Celula>, Maos) {
    (
        com_casa(g, linha, coluna, Some(Gato { peca, dono })),
        if maos.mao(dono).possui(peca) {
            maos.com(dono, maos.mao(dono).apos_colocar(peca))
        } else {
            maos
        },
    )
}

/// Coloca a peca na casa, sem empurrar nada.
pub fn colocar_peca(
    tabuleiro: &mut Tabuleiro,
    linha: usize,
    coluna: usize,
    peca: Peca,
    dono: Jogador,
    maos: &mut Maos,
)
    requires
        old(maos).mao(dono).possui(peca) ==> old(maos).mao(dono).bem_formada(),
    ensures
        (final(tabuleiro)@, *final(maos)) == colocacao(
            old(tabuleiro)@,
            *old(maos),
            linha as int,
            coluna as int,
            peca,
            dono,
        ),
{
    maos.de(dono).colocar(peca);
    tabuleiro.set(linha, coluna, Some(Gato::novo(peca, dono)));
}

/// Uma peca recem colocada do tipo `colocada` empurra `alvo`: gatinho nao
/// empurra gatao; gatao empurra qualquer peca.
pub open spec fn empurra(colocada: Peca, alvo: Gato) -> bool {
    !(colocada == Peca::Gatinho && alvo.peca == Peca::Gatao)
}

/// Boop em uma direcao a partir de `(linha, coluna)`: a grade resultante e o
/// gato que saiu do tabuleiro, se algum saiu.
///
/// A casa vizinha na direcao, se existir, tiver um gato e ele puder ser
/// empurrado, tem o gato movido uma casa adiante quando essa casa existe e
/// esta vazia; fica como esta quando essa casa esta ocupada; e perde o gato
/// quando essa casa fica fora do tabuleiro.
pub open spec fn boop_direcao(
    g: Seq<Celula>,
    linha: int,
    coluna: int,
    direcao: (isize, isize),
    colocada: Peca,
) -> (Seq<Celula>, Option<Gato>) {
    let alvo_linha = linha + direcao.0;
    let alvo_coluna = coluna + direcao.1;
    let destino_linha = alvo_linha + direcao.0;
    let destino_coluna = alvo_coluna + direcao.1;
    if !na_grade(alvo_linha, alvo_coluna) {
        (g, None)
    } else {
        match casa(g, alvo_linha, alvo_coluna) {
            None => (g, None),
            Some(alvo) => if !empurra(colocada, alvo) {
                (g, None)
            } else if na_grade(destino_linha, destino_coluna) {
                if casa(g, destino_linha, destino_coluna) is None {
                    (
                        com_casa(
                            com_casa(g, destino_linha, destino_coluna, Some(alvo)),
                            alvo_linha,
                            alvo_coluna,
                            None,
                        ),
                        None,
                    )
                } else {
                    (g, None)
                }
            } else {
                (com_casa(g, alvo_linha, alvo_coluna, None), Some(alvo))
            },
        }
    }
}

/// Aplica o boop em uma unica direcao a partir da peca recem colocada.
pub fn aplicar_boop(
    tabuleiro: &mut Tabuleiro,
    linha: usize,
    coluna: usize,
    direcao: (isize, isize),
    peca_colocada: Peca,
    maos: &mut Maos,
)
    requires
        boop_direcao(
            old(tabuleiro)@,
            linha as int,
            coluna as int,
            direcao,
            peca_colocada,
        ).1 matches Some(gato) ==> old(maos).pode_devolver(gato),
    ensures
        ({
            let (g, saiu) = boop_direcao(
                old(tabuleiro)@,
                linha as int,
                coluna as int,
                direcao,
                peca_colocada,
            );
            &&& final(tabuleiro)@ == g
            &&& *final(maos) == match saiu {
                Some(gato) => old(maos).devolve(gato),
                None => *old(maos),
            }
        }),
{
    // Casa adjacente na direcao. Fora do tabuleiro ou vazia: nada acontece.
    let (alvo_linha, alvo_coluna) = match deslocar(linha, coluna, direcao) {
        Some(alvo) => alvo,
        None => return ,
    };
    let gato_alvo = match tabuleiro.get(alvo_linha, alvo_coluna) {
        Some(gato) => gato,
        None => return ,
    };

    // Gatinho nao empurra gatao. Gatao empurra qualquer peca.
    if peca_colocada == Peca::Gatinho && gato_alvo.peca == Peca::Gatao {
        return ;
    }
    // Casa seguinte, na mesma direcao, a partir do alvo.

    match deslocar(alvo_linha, alvo_coluna, direcao) {
        Some((destino_linha, destino_coluna)) => {
            if tabuleiro.vazia(destino_linha, destino_coluna) {
                // Move: alvo vai para o destino, peca e dono preservados.
                tabuleiro.set(destino_linha, destino_coluna, Some(gato_alvo));
                tabuleiro.set(alvo_linha, alvo_coluna, None);
            }
            // Destino ocupado: nada acontece (pecas lado a lado nao se boopam).

        },
        None => {
            // Destino fora do tabuleiro: a peca alvo sai e volta para a mao
            // do seu proprio dono (nunca do jogador da vez).
            maos.de(gato_alvo.dono).devolver(gato_alvo.peca);
            tabuleiro.set(alvo_linha, alvo_coluna, None);
        },
    }
}

/// Boop nas `k` primeiras direcoes de `DIRECOES_BOOP`, cada uma sobre o
/// resultado das anteriores: a grade resultante e os gatos que sairam do
/// tabuleiro, na ordem em que sairam.
pub open spec fn boop_ate(g: Seq<Celula>, linha: int, coluna: int, colocada: Peca, k: nat) -> (
    Seq<Celula>,
    Seq<Gato>,
)
    decreases k,
{
    if k == 0 {
        (g, Seq::empty())
    } else {
        let (anterior, sairam) = boop_ate(g, linha, coluna, colocada, (k - 1) as nat);
        let (seguinte, saiu) = boop_direcao(
            anterior,
            linha,
            coluna,
            DIRECOES_BOOP@[k - 1],
            colocada,
        );
        (
            seguinte,
            match saiu {
                Some(gato) => sairam.push(gato),
                None => sairam,
            },
        )
    }
}

/// Boop nas 8 direcoes.
pub open spec fn boop(g: Seq<Celula>, linha: int, coluna: int, colocada: Peca) -> (
    Seq<Celula>,
    Seq<Gato>,
) {
    boop_ate(g, linha, coluna, colocada, 8)
}

/// Se as maos aceitam todas as devolucoes das 8 direcoes, aceitam as das `k`
/// primeiras.
proof fn lemma_aceita_prefixo(
    maos: Maos,
    g: Seq<Celula>,
    linha: int,
    coluna: int,
    colocada: Peca,
    k: nat,
    n: nat,
)
    requires
        k <= n,
        maos.aceita_devolucoes(boop_ate(g, linha, coluna, colocada, n).1),
    ensures
        maos.aceita_devolucoes(boop_ate(g, linha, coluna, colocada, k).1),
    decreases n - k,
{
    if k < n {
        let anterior = boop_ate(g, linha, coluna, colocada, (n - 1) as nat).1;
        let atual = boop_ate(g, linha, coluna, colocada, n).1;
        if atual != anterior {
            assert(atual.drop_last() =~= anterior);
        }
        lemma_aceita_prefixo(maos, g, linha, coluna, colocada, k, (n - 1) as nat);
    }
}

/// Aplica o boop nas 8 direcoes a partir da casa indicada.
pub fn boop_nas_oito_direcoes(
    tabuleiro: &mut Tabuleiro,
    linha: usize,
    coluna: usize,
    peca: Peca,
    maos: &mut Maos,
)
    requires
        old(maos).aceita_devolucoes(
            boop(old(tabuleiro)@, linha as int, coluna as int, peca).1,
        ),
    ensures
        ({
            let (g, sairam) = boop(
                old(tabuleiro)@,
                linha as int,
                coluna as int,
                peca,
            );
            &&& final(tabuleiro)@ == g
            &&& *final(maos) == old(maos).devolve_todas(sairam)
        }),
{
    let ghost g0 = tabuleiro@;
    let ghost m0 = *maos;
    let ghost l = linha as int;
    let ghost c = coluna as int;
    // As direcoes sao aplicadas em sequencia, sobre o estado corrente do
    // tabuleiro: cada direcao ve o resultado das anteriores.
    let mut k: usize = 0;
    while k < 8
        invariant
            k <= 8,
            l == linha as int,
            c == coluna as int,
            m0.aceita_devolucoes(boop(g0, l, c, peca).1),
            tabuleiro@ == boop_ate(g0, l, c, peca, k as nat).0,
            *maos == m0.devolve_todas(boop_ate(g0, l, c, peca, k as nat).1),
        decreases 8 - k,
    {
        let direcao = DIRECOES_BOOP[k];
        proof {
            lemma_aceita_prefixo(m0, g0, l, c, peca, (k + 1) as nat, 8);
            let sairam = boop_ate(g0, l, c, peca, k as nat).1;
            let depois = boop_ate(g0, l, c, peca, (k + 1) as nat).1;
            if depois != sairam {
                assert(depois.drop_last() =~= sairam);
            }
        }
        aplicar_boop(tabuleiro, linha, coluna, direcao, peca, maos);
        proof {
            let sairam = boop_ate(g0, l, c, peca, k as nat).1;
            let depois = boop_ate(g0, l, c, peca, (k + 1) as nat).1;
            if depois != sairam {
                assert(depois.drop_last() =~= sairam);
            }
        }
        k += 1;
    }
}

/// Coloca a peca na casa e aplica o boop nas 8 direcoes.
pub fn faz_boop(
    tabuleiro: &mut Tabuleiro,
    linha: usize,
    coluna: usize,
    peca: Peca,
    dono: Jogador,
    maos: &mut Maos,
)
    requires
        old(maos).mao(dono).possui(peca) ==> old(maos).mao(dono).bem_formada(),
        ({
            let (g, m) = colocacao(
                old(tabuleiro)@,
                *old(maos),
                linha as int,
                coluna as int,
                peca,
                dono,
            );
            m.aceita_devolucoes(boop(g, linha as int, coluna as int, peca).1)
        }),
    ensures
        ({
            let (g, m) = colocacao(
                old(tabuleiro)@,
                *old(maos),
                linha as int,
                coluna as int,
                peca,
                dono,
            );
            let (g2, sairam) = boop(g, linha as int, coluna as int, peca);
            &&& final(tabuleiro)@ == g2
            &&& *final(maos) == m.devolve_todas(sairam)
        }),
{
    colocar_peca(tabuleiro, linha, coluna, peca, dono, maos);
    boop_nas_oito_direcoes(tabuleiro, linha, coluna, peca, maos);
}

/// Colocar uma peca aprovada por `verificar_jogada` mantem as maos de acordo
/// com o tabuleiro.
pub proof fn lemma_colocacao_consistente(
    g: Seq<Celula>,
    maos: Maos,
    linha: int,
    coluna: int,
    peca: Peca,
    dono: Jogador,
)
    requires
        consistente(g, maos),
        veredito(g, linha, coluna, peca, maos.mao(dono)) is Ok,
    ensures
        consistente(
            colocacao(g, maos, linha, coluna, peca, dono).0,
            colocacao(g, maos, linha, coluna, peca, dono).1,
        ),
{
    let i = indice(linha, coluna);
    let gato = Gato { peca, dono };
    lemma_conta_update(g, i, Some(gato), Jogador::Um, 36);
    lemma_conta_update(g, i, Some(gato), Jogador::Dois, 36);
}

/// O boop em uma direcao nao nula mantem as maos de acordo com o tabuleiro, e
/// a peca que sai do tabuleiro sempre pode voltar para a mao do dono.
pub proof fn lemma_boop_direcao_consistente(
    g: Seq<Celula>,
    maos: Maos,
    linha: int,
    coluna: int,
    direcao: (isize, isize),
    colocada: Peca,
)
    requires
        consistente(g, maos),
        direcao.0 != 0 || direcao.1 != 0,
    ensures
        ({
            let (g2, saiu) = boop_direcao(g, linha, coluna, direcao, colocada);
            &&& saiu matches Some(gato) ==> maos.pode_devolver(gato)
            &&& consistente(
                g2,
                match saiu {
                    Some(gato) => maos.devolve(gato),
                    None => maos,
                },
            )
        }),
{
    let alvo_linha = linha + direcao.0;
    let alvo_coluna = coluna + direcao.1;
    let destino_linha = alvo_linha + direcao.0;
    let destino_coluna = alvo_coluna + direcao.1;
    if na_grade(alvo_linha, alvo_coluna) {
        if let Some(alvo) = casa(g, alvo_linha, alvo_coluna) {
            if empurra(colocada, alvo) {
                let i_alvo = indice(alvo_linha, alvo_coluna);
                if na_grade(destino_linha, destino_coluna) {
                    if casa(g, destino_linha, destino_coluna) is None {
                        let i_destino = indice(destino_linha, destino_coluna);
                        assert(i_destino != i_alvo);
                        let g1 = g.update(i_destino, Some(alvo));
                        lemma_conta_update(g, i_destino, Some(alvo), Jogador::Um, 36);
                        lemma_conta_update(g, i_destino, Some(alvo), Jogador::Dois, 36);
                        assert(g1[i_alvo] == Some(alvo));
                        lemma_conta_update(g1, i_alvo, None, Jogador::Um, 36);
                        lemma_conta_update(g1, i_alvo, None, Jogador::Dois, 36);
                    }
                } else {
                    lemma_conta_update(g, i_alvo, None, Jogador::Um, 36);
                    lemma_conta_update(g, i_alvo, None, Jogador::Dois, 36);
                    lemma_conta_positiva(g, alvo.dono, i_alvo, 36);
                }
            }
        }
    }
}

/// O boop nas `k` primeiras direcoes mantem as maos de acordo com o
/// tabuleiro, e cada peca que sai do tabuleiro pode voltar para o dono.
pub proof fn lemma_boop_consistente(
    g: Seq<Celula>,
    maos: Maos,
    linha: int,
    coluna: int,
    colocada: Peca,
    k: nat,
)
    requires
        consistente(g, maos),
        k <= 8,
    ensures
        maos.aceita_devolucoes(boop_ate(g, linha, coluna, colocada, k).1),
        consistente(
            boop_ate(g, linha, coluna, colocada, k).0,
            maos.devolve_todas(boop_ate(g, linha, coluna, colocada, k).1),
        ),
    decreases k,
{
    if k > 0 {
        lemma_boop_consistente(g, maos, linha, coluna, colocada, (k - 1) as nat);
        let (anterior, sairam) = boop_ate(g, linha, coluna, colocada, (k - 1) as nat);
        let m = maos.devolve_todas(sairam);
        let direcao = DIRECOES_BOOP@[k - 1];
        lemma_boop_direcao_consistente(anterior, m, linha, coluna, direcao, colocada);
        let (seguinte, saiu) = boop_direcao(anterior, linha, coluna, direcao, colocada);
        if let Some(gato) = saiu {
            let depois = sairam.push(gato);
            assert(depois.drop_last() =~= sairam);
            assert(depois.last() == gato);
        }
    }
}

/// O boop nao muda o numero de casas da grade.
pub proof fn lemma_boop_tamanho(g: Seq<Celula>, linha: int, coluna: int, colocada: Peca, k: nat)
    requires
        g.len() == 36,
    ensures
        boop_ate(g, linha, coluna, colocada, k).0.len() == 36,
    decreases k,
{
    if k > 0 {
        lemma_boop_tamanho(g, linha, coluna, colocada, (k - 1) as nat);
    }
}

/// `(l, c)` e uma das 8 casas vizinhas de `(linha, coluna)`.
pub open spec fn vizinha(linha: int, coluna: int, l: int, c: int) -> bool {
    -1 <= l - linha <= 1 && -1 <= c - coluna <= 1 && (l != linha || c != coluna)
}

/// O boop so move pecas das casas vizinhas: uma peca em qualquer outra casa,
/// inclusive a recem colocada, fica onde esta.
pub proof fn boop_so_move_vizinhas(
    g: Seq<Celula>,
    linha: int,
    coluna: int,
    colocada: Peca,
    l: int,
    c: int,
    k: nat,
)
    requires
        g.len() == 36,
        k <= 8,
        na_grade(l, c),
        !vizinha(linha, coluna, l, c),
        casa(g, l, c) is Some,
    ensures
        boop_ate(g, linha, coluna, colocada, k).0.len() == 36,
        casa(boop_ate(g, linha, coluna, colocada, k).0, l, c) == casa(g, l, c),
    decreases k,
{
    if k > 0 {
        boop_so_move_vizinhas(g, linha, coluna, colocada, l, c, (k - 1) as nat);
        let anterior = boop_ate(g, linha, coluna, colocada, (k - 1) as nat).0;
        let direcao = DIRECOES_BOOP@[k - 1];
        let alvo_linha = linha + direcao.0;
        let alvo_coluna = coluna + direcao.1;
        let destino_linha = alvo_linha + direcao.0;
        let destino_coluna = alvo_coluna + direcao.1;
        assert(-1 <= direcao.0 <= 1 && -1 <= direcao.1 <= 1 && (direcao.0 != 0 || direcao.1
            != 0));
        assert(indice(l, c) != indice(alvo_linha, alvo_coluna) || !na_grade(
            alvo_linha,
            alvo_coluna,
        ));
        if na_grade(destino_linha, destino_coluna) && destino_linha == l && destino_coluna == c {
            assert(casa(anterior, destino_linha, destino_coluna) is Some);
        } else {
            assert(indice(l, c) != indice(destino_linha, destino_coluna) || !na_grade(
                destino_linha,
                destino_coluna,
            ));
        }
    }
}

/// `(l, c)` esta a uma ou duas casas de `(linha, coluna)` numa das 8
/// direcoes: as unicas casas que o boop a partir de `(linha, coluna)` alcanca.
pub open spec fn ao_alcance(linha: int, coluna: int, l: int, c: int) -> bool {
    let dl = l - linha;
    let dc = c - coluna;
    &&& -2 <= dl <= 2
    &&& -2 <= dc <= 2
    &&& (dl != 0 || dc != 0)
    &&& (dl == 0 || dc == 0 || dl == dc || dl == -dc)
}

/// O boop so muda casas ao alcance da peca colocada: qualquer outra casa,
/// vazia ou ocupada, inclusive a da propria peca, fica como estava.
pub proof fn boop_so_muda_o_alcance(
    g: Seq<Celula>,
    linha: int,
    coluna: int,
    colocada: Peca,
    l: int,
    c: int,
    k: nat,
)
    requires
        g.len() == 36,
        k <= 8,
        !ao_alcance(linha, coluna, l, c),
    ensures
        casa(boop_ate(g, linha, coluna, colocada, k).0, l, c) == casa(g, l, c),
    decreases k,
{
    if k > 0 && na_grade(l, c) {
        boop_so_muda_o_alcance(g, linha, coluna, colocada, l, c, (k - 1) as nat);
        lemma_boop_tamanho(g, linha, coluna, colocada, (k - 1) as nat);
        let direcao = DIRECOES_BOOP@[k - 1];
        let alvo_linha = linha + direcao.0;
        let alvo_coluna = coluna + direcao.1;
        let destino_linha = alvo_linha + direcao.0;
        let destino_coluna = alvo_coluna + direcao.1;
        assert(-1 <= direcao.0 <= 1 && -1 <= direcao.1 <= 1 && (direcao.0 != 0 || direcao.1
            != 0));
        assert(indice(l, c) != indice(alvo_linha, alvo_coluna) || !na_grade(
            alvo_linha,
            alvo_coluna,
        ));
        assert(indice(l, c) != indice(destino_linha, destino_coluna) || !na_grade(
            destino_linha,
            destino_coluna,
        ));
    }
}

/// Grade e maos depois do boop em uma direcao, com a peca que sair do
/// tabuleiro devolvida ao dono.
pub open spec fn empurrao(
    g: Seq<Celula>,
    maos: Maos,
    linha: int,
    coluna: int,
    direcao: (isize, isize),
    colocada: Peca,
) -> (Seq<Celula>, Maos) {
    let (g2, saiu) = boop_direcao(g, linha, coluna, direcao, colocada);
    (
        g2,
        match saiu {
            Some(gato) => maos.devolve(gato),
            None => maos,
        },
    )
}

/// Boops em duas direcoes diferentes, a partir da mesma casa, comutam:
/// feitos em qualquer ordem, dao a mesma grade e as mesmas maos. Cada um so le
/// e escreve as duas casas da sua direcao, e essas casas nao se cruzam.
pub proof fn boops_comutam(
    g: Seq<Celula>,
    maos: Maos,
    linha: int,
    coluna: int,
    d1: (isize, isize),
    d2: (isize, isize),
    colocada: Peca,
)
    requires
        g.len() == 36,
        direcao_unitaria((d1.0 as int, d1.1 as int)),
        direcao_unitaria((d2.0 as int, d2.1 as int)),
        d1 != d2,
    ensures
        ({
            let (ga, ma) = empurrao(g, maos, linha, coluna, d1, colocada);
            let (gb, mb) = empurrao(g, maos, linha, coluna, d2, colocada);
            empurrao(ga, ma, linha, coluna, d2, colocada) == empurrao(
                gb,
                mb,
                linha,
                coluna,
                d1,
                colocada,
            )
        }),
{
    let (ga, sa) = boop_direcao(g, linha, coluna, d1, colocada);
    let (gb, sb) = boop_direcao(g, linha, coluna, d2, colocada);
    assert(boop_direcao(ga, linha, coluna, d2, colocada).1 == sb);
    assert(boop_direcao(gb, linha, coluna, d1, colocada).1 == sa);
    assert(boop_direcao(ga, linha, coluna, d2, colocada).0 =~= boop_direcao(
        gb,
        linha,
        coluna,
        d1,
        colocada,
    ).0);
}

/// A jogada e aceita exatamente quando a casa esta no tabuleiro, vazia, e a
/// mao tem ao menos uma peca do tipo escolhido; senao o motivo e, nessa ordem
/// de prioridade, a casa fora do tabuleiro, a casa ocupada ou a falta da peca.
pub proof fn veredito_aceita_exatamente(
    g: Seq<Celula>,
    linha: int,
    coluna: int,
    peca: Peca,
    mao: Mao,
)
    ensures
        ({
            let dentro = 0 <= linha < 6 && 0 <= coluna < 6;
            let livre = dentro && g[linha * 6 + coluna] is None;
            let tem = match peca {
                Peca::Gatinho => mao.gatinhos > 0,
                Peca::Gatao => mao.gatoes > 0,
            };
            &&& veredito(g, linha, coluna, peca, mao) is Ok <==> livre && tem
            &&& !dentro ==> veredito(g, linha, coluna, peca, mao) == Err::<(), JogadaInvalida>(
                JogadaInvalida::ForaDoTabuleiro,
            )
            &&& dentro && !livre ==> veredito(g, linha, coluna, peca, mao) == Err::<
                (),
                JogadaInvalida,
            >(JogadaInvalida::CelulaOcupada)
            &&& livre && !tem ==> veredito(g, linha, coluna, peca, mao) == Err::<
                (),
                JogadaInvalida,
            >(JogadaInvalida::SemPecas(peca))
        }),
{
}

/// O boop em uma direcao so escreve nas duas casas dessa direcao.
proof fn lemma_direcao_so_escreve_nas_suas_casas(
    h: Seq<Celula>,
    linha: int,
    coluna: int,
    direcao: (isize, isize),
    colocada: Peca,
    l: int,
    c: int,
)
    requires
        h.len() == 36,
        l != linha + direcao.0 || c != coluna + direcao.1,
        l != linha + 2 * direcao.0 || c != coluna + 2 * direcao.1,
    ensures
        boop_direcao(h, linha, coluna, direcao, colocada).0.len() == 36,
        casa(boop_direcao(h, linha, coluna, direcao, colocada).0, l, c) == casa(h, l, c),
{
}

/// O boop em uma direcao so le as duas casas dessa direcao: duas grades que
/// concordam nelas dao o mesmo resultado nelas e a mesma peca expulsa.
proof fn lemma_direcao_so_le_suas_casas(
    h1: Seq<Celula>,
    h2: Seq<Celula>,
    linha: int,
    coluna: int,
    direcao: (isize, isize),
    colocada: Peca,
)
    requires
        h1.len() == 36,
        h2.len() == 36,
        casa(h1, linha + direcao.0, coluna + direcao.1) == casa(
            h2,
            linha + direcao.0,
            coluna + direcao.1,
        ),
        casa(h1, linha + 2 * direcao.0, coluna + 2 * direcao.1) == casa(
            h2,
            linha + 2 * direcao.0,
            coluna + 2 * direcao.1,
        ),
        direcao.0 != 0 || direcao.1 != 0,
    ensures
        ({
            let (r1, s1) = boop_direcao(h1, linha, coluna, direcao, colocada);
            let (r2, s2) = boop_direcao(h2, linha, coluna, direcao, colocada);
            &&& s1 == s2
            &&& casa(r1, linha + direcao.0, coluna + direcao.1) == casa(
                r2,
                linha + direcao.0,
                coluna + direcao.1,
            )
            &&& casa(r1, linha + 2 * direcao.0, coluna + 2 * direcao.1) == casa(
                r2,
                linha + 2 * direcao.0,
                coluna + 2 * direcao.1,
            )
        }),
{
}

/// As 8 entradas de `DIRECOES_BOOP` sao as 8 direcoes, cada uma uma vez.
proof fn lemma_direcoes_boop(direcao: (isize, isize))
    ensures
        forall|i: int| 0 <= i < 8 ==> direcao_unitaria(
            (#[trigger] DIRECOES_BOOP@[i].0 as int, DIRECOES_BOOP@[i].1 as int),
        ),
        forall|i: int, j: int|
            0 <= i < 8 && 0 <= j < 8 && i != j ==> #[trigger] DIRECOES_BOOP@[i]
                != #[trigger] DIRECOES_BOOP@[j],
        direcao_unitaria((direcao.0 as int, direcao.1 as int)) ==> exists|i: int|
            0 <= i < 8 && #[trigger] DIRECOES_BOOP@[i] == direcao,
{
    if direcao_unitaria((direcao.0 as int, direcao.1 as int)) {
        if direcao == DIRECOES_BOOP@[0] {
        } else if direcao == DIRECOES_BOOP@[1] {
        } else if direcao == DIRECOES_BOOP@[2] {
        } else if direcao == DIRECOES_BOOP@[3] {
        } else if direcao == DIRECOES_BOOP@[4] {
        } else if direcao == DIRECOES_BOOP@[5] {
        } else if direcao == DIRECOES_BOOP@[6] {
        } else {
            assert(direcao == DIRECOES_BOOP@[7]);
        }
    }
}

/// Depois das `k` primeiras direcoes, as casas de `direcao` estao como o boop
/// so nessa direcao as deixaria, se ela ja foi aplicada, ou como na grade
/// original, se ainda nao.
proof fn lemma_casas_da_direcao(
    g: Seq<Celula>,
    linha: int,
    coluna: int,
    colocada: Peca,
    direcao: (isize, isize),
    k: nat,
)
    requires
        g.len() == 36,
        k <= 8,
        direcao_unitaria((direcao.0 as int, direcao.1 as int)),
    ensures
        ({
            let atual = boop_ate(g, linha, coluna, colocada, k).0;
            let sozinha = boop_direcao(g, linha, coluna, direcao, colocada).0;
            let (al, ac) = (linha + direcao.0, coluna + direcao.1);
            let (bl, bc) = (linha + 2 * direcao.0, coluna + 2 * direcao.1);
            let ja_foi = exists|i: int| 0 <= i < k && #[trigger] DIRECOES_BOOP@[i] == direcao;
            &&& ja_foi ==> casa(atual, al, ac) == casa(sozinha, al, ac) && casa(atual, bl, bc)
                == casa(sozinha, bl, bc)
            &&& !ja_foi ==> casa(atual, al, ac) == casa(g, al, ac) && casa(atual, bl, bc) == casa(
                g,
                bl,
                bc,
            )
        }),
    decreases k,
{
    lemma_direcoes_boop(direcao);
    if k > 0 {
        lemma_casas_da_direcao(g, linha, coluna, colocada, direcao, (k - 1) as nat);
        lemma_boop_tamanho(g, linha, coluna, colocada, (k - 1) as nat);
        let anterior = boop_ate(g, linha, coluna, colocada, (k - 1) as nat).0;
        let d = DIRECOES_BOOP@[k - 1];
        let (al, ac) = (linha + direcao.0, coluna + direcao.1);
        let (bl, bc) = (linha + 2 * direcao.0, coluna + 2 * direcao.1);
        assert(direcao_unitaria((d.0 as int, d.1 as int)));
        if d == direcao {
            assert(forall|i: int| 0 <= i < k - 1 ==> #[trigger] DIRECOES_BOOP@[i] != direcao);
            lemma_direcao_so_le_suas_casas(anterior, g, linha, coluna, direcao, colocada);
            assert(DIRECOES_BOOP@[k - 1] == direcao);
        } else {
            lemma_direcao_so_escreve_nas_suas_casas(anterior, linha, coluna, d, colocada, al, ac);
            lemma_direcao_so_escreve_nas_suas_casas(anterior, linha, coluna, d, colocada, bl, bc);
            if exists|i: int| 0 <= i < k && #[trigger] DIRECOES_BOOP@[i] == direcao {
                let i = choose|i: int| 0 <= i < k && #[trigger] DIRECOES_BOOP@[i] == direcao;
                assert(i < k - 1);
            }
        }
    }
}

/// No boop nas 8 direcoes cada direcao age como se fosse a unica: as duas
/// casas de cada direcao terminam como terminariam com o boop so nessa
/// direcao, a partir da grade original. Com `boop_so_muda_o_alcance`, isso
/// diz o que o boop faz em cada casa.
pub proof fn boop_age_em_cada_direcao(
    g: Seq<Celula>,
    linha: int,
    coluna: int,
    colocada: Peca,
    direcao: (isize, isize),
)
    requires
        g.len() == 36,
        direcao_unitaria((direcao.0 as int, direcao.1 as int)),
    ensures
        ({
            let todas = boop(g, linha, coluna, colocada).0;
            let sozinha = boop_direcao(g, linha, coluna, direcao, colocada).0;
            let (al, ac) = (linha + direcao.0, coluna + direcao.1);
            let (bl, bc) = (linha + 2 * direcao.0, coluna + 2 * direcao.1);
            &&& casa(todas, al, ac) == casa(sozinha, al, ac)
            &&& casa(todas, bl, bc) == casa(sozinha, bl, bc)
        }),
{
    lemma_direcoes_boop(direcao);
    lemma_casas_da_direcao(g, linha, coluna, colocada, direcao, 8);
}

} // verus!
