//! Orquestracao de um turno: aplica a jogada sobre o model, na ordem certa.
use vstd::prelude::*;

use crate::model::graduar::{
    graduacao, graduacao_so_esvazia, graduar_nao_deixa_trios, ha_trio_sse_ha_alinhamento,
    tres_gatinhos, graduar, lemma_graduacao_consistente, pode_graduar, trios_de, trios_de_gatinhos,
};
use crate::model::jogada::{
    boop, boop_nas_oito_direcoes, boop_so_muda_o_alcance, colocacao, lemma_boop_tamanho, colocar_peca, lemma_boop_consistente,
    lemma_colocacao_consistente, veredito, Jogada,
};
use crate::model::tipos::{
    casa, com_casa, consistente, oponente_de, tabuleiro_tem_36_casas, Celula, Gato, Jogador, Maos,
    Tabuleiro,
};

verus! {

broadcast use tabuleiro_tem_36_casas;

/// Grade e maos depois da colocacao e, se ela nao fechou trio de gatinhos do
/// jogador, do boop nas 8 direcoes.
pub open spec fn colocacao_e_boop(g: Seq<Celula>, maos: Maos, jogada: Jogada, jogador: Jogador) -> (
    Seq<Celula>,
    Maos,
) {
    let (g1, m1) = colocacao(
        g,
        maos,
        jogada.linha as int,
        jogada.coluna as int,
        jogada.peca,
        jogador,
    );
    if trios_de(g1, jogador).len() > 0 {
        (g1, m1)
    } else {
        let (g2, sairam) = boop(
            g1,
            jogada.linha as int,
            jogada.coluna as int,
            jogada.peca,
        );
        (g2, m1.devolve_todas(sairam))
    }
}

/// Grade e maos ao fim do turno: colocacao, boop (se a colocacao nao fechou
/// trio) e graduacao do jogador da vez e depois do adversario.
pub open spec fn fluxo(g: Seq<Celula>, maos: Maos, jogada: Jogada, jogador: Jogador) -> (
    Seq<Celula>,
    Maos,
) {
    let (g2, m2) = colocacao_e_boop(g, maos, jogada, jogador);
    let (g3, m3) = graduacao(g2, m2, jogador);
    graduacao(g3, m3, oponente_de(jogador))
}

/// O turno pode ser executado sem violar nenhuma das condicoes das regras:
/// a mao aceita a peca colocada, e as maos aceitam as pecas empurradas para
/// fora e as graduacoes.
pub open spec fn fluxo_permitido(g: Seq<Celula>, maos: Maos, jogada: Jogada, jogador: Jogador) -> bool {
    let (g1, m1) = colocacao(
        g,
        maos,
        jogada.linha as int,
        jogada.coluna as int,
        jogada.peca,
        jogador,
    );
    let (g2, m2) = colocacao_e_boop(g, maos, jogada, jogador);
    let (g3, m3) = graduacao(g2, m2, jogador);
    &&& maos.mao(jogador).possui(jogada.peca) ==> maos.mao(jogador).bem_formada()
    &&& trios_de(g1, jogador).len() == 0 ==> m1.aceita_devolucoes(
        boop(g1, jogada.linha as int, jogada.coluna as int, jogada.peca).1,
    )
    &&& pode_graduar(g2, m2, jogador)
    &&& pode_graduar(g3, m3, oponente_de(jogador))
}

/// Executa o turno: coloca a peca, aplica o boop e gradua os trios resultantes
/// (do jogador da vez e do adversario).
///
/// A graduacao tem prioridade sobre o boop: se a propria colocacao ja fechou um
/// trio de gatinhos, o empurrao daquele turno nao acontece.
pub fn fluxo_jogo(tabuleiro: &mut Tabuleiro, jogada: &Jogada, jogador: Jogador, maos: &mut Maos)
    requires
        fluxo_permitido(old(tabuleiro)@, *old(maos), *jogada, jogador),
    ensures
        (final(tabuleiro)@, *final(maos)) == fluxo(old(tabuleiro)@, *old(maos), *jogada, jogador),
{
    colocar_peca(tabuleiro, jogada.linha, jogada.coluna, jogada.peca, jogador, maos);

    // Sem esta condicional o boop empurraria justamente as pecas vizinhas que
    // formam o trio com a peca recem colocada, desfazendo o alinhamento antes
    // de a graduacao ser avaliada.
    let trios = trios_de_gatinhos(tabuleiro, jogador);
    let jogada_fechou_trio = trios.len() > 0;

    if !jogada_fechou_trio {
        boop_nas_oito_direcoes(tabuleiro, jogada.linha, jogada.coluna, jogada.peca, maos);
    }
    // O boop pode formar trio para qualquer um dos dois jogadores, entao
    // graduamos ambos apos a jogada.

    graduar(tabuleiro, jogador, maos);
    graduar(tabuleiro, jogador.oponente(), maos);
}

/// Um turno com uma jogada aprovada por `verificar_jogada`, a partir de maos
/// de acordo com o tabuleiro, satisfaz todas as condicoes das regras e deixa
/// as maos de acordo com o tabuleiro: cada jogador continua com 8 pecas e as
/// suas pecas ativas sao as que estao no tabuleiro.
pub proof fn turno_preserva_consistencia(
    g: Seq<Celula>,
    maos: Maos,
    jogada: Jogada,
    jogador: Jogador,
)
    requires
        consistente(g, maos),
        veredito(
            g,
            jogada.linha as int,
            jogada.coluna as int,
            jogada.peca,
            maos.mao(jogador),
        ) is Ok,
    ensures
        fluxo_permitido(g, maos, jogada, jogador),
        consistente(fluxo(g, maos, jogada, jogador).0, fluxo(g, maos, jogada, jogador).1),
{
    let linha = jogada.linha as int;
    let coluna = jogada.coluna as int;
    lemma_colocacao_consistente(g, maos, linha, coluna, jogada.peca, jogador);
    let (g1, m1) = colocacao(g, maos, linha, coluna, jogada.peca, jogador);
    lemma_boop_consistente(
        g1,
        m1,
        jogada.linha as int,
        jogada.coluna as int,
        jogada.peca,
        8,
    );
    let (g2, m2) = colocacao_e_boop(g, maos, jogada, jogador);
    lemma_graduacao_consistente(g2, m2, jogador);
    let (g3, m3) = graduacao(g2, m2, jogador);
    lemma_graduacao_consistente(g3, m3, oponente_de(jogador));
}

/// Ao fim de um turno nenhum dos dois jogadores tem trio de gatinhos por
/// graduar.
pub proof fn turno_nao_deixa_trios(g: Seq<Celula>, maos: Maos, jogada: Jogada, jogador: Jogador)
    requires
        g.len() == 36,
    ensures
        trios_de(fluxo(g, maos, jogada, jogador).0, jogador).len() == 0,
        trios_de(fluxo(g, maos, jogada, jogador).0, oponente_de(jogador)).len() == 0,
{
    let (g1, m1) = colocacao(
        g,
        maos,
        jogada.linha as int,
        jogada.coluna as int,
        jogada.peca,
        jogador,
    );
    lemma_boop_tamanho(g1, jogada.linha as int, jogada.coluna as int, jogada.peca, 8);
    let (g2, m2) = colocacao_e_boop(g, maos, jogada, jogador);
    assert(g2.len() == 36);
    graduar_nao_deixa_trios(g2, m2, jogador);
    let (g3, m3) = graduacao(g2, m2, jogador);
    graduacao_so_esvazia(g2, m2, jogador, 0, 0);
    graduar_nao_deixa_trios(g3, m3, oponente_de(jogador));
    let g4 = graduacao(g3, m3, oponente_de(jogador)).0;
    graduacao_so_esvazia(g3, m3, oponente_de(jogador), 0, 0);
    ha_trio_sse_ha_alinhamento(g4, jogador);
    ha_trio_sse_ha_alinhamento(g3, jogador);
    if trios_de(g4, jogador).len() > 0 {
        let (linha, coluna, direcao) = choose|linha: int, coluna: int, direcao: (int, int)|
            #[trigger] tres_gatinhos(g4, jogador, linha, coluna, direcao);
        graduacao_so_esvazia(g3, m3, oponente_de(jogador), linha, coluna);
        graduacao_so_esvazia(
            g3,
            m3,
            oponente_de(jogador),
            linha + direcao.0,
            coluna + direcao.1,
        );
        graduacao_so_esvazia(
            g3,
            m3,
            oponente_de(jogador),
            linha + 2 * direcao.0,
            coluna + 2 * direcao.1,
        );
        assert(tres_gatinhos(g3, jogador, linha, coluna, direcao));
    }
}

/// O boop do turno so e suprimido quando a propria colocacao fecha um trio de
/// gatinhos do jogador, e nunca por causa das maos: sem esse trio, a grade
/// depois do boop e a grade com a peca colocada e empurrada nas 8 direcoes;
/// com ele, e so a grade com a peca colocada. A peca colocada fica na sua
/// casa em qualquer caso.
pub proof fn boop_suprimido_so_pelo_trio(
    g: Seq<Celula>,
    maos: Maos,
    outras_maos: Maos,
    jogada: Jogada,
    jogador: Jogador,
)
    requires
        g.len() == 36,
        jogada.linha < 6,
        jogada.coluna < 6,
    ensures
        ({
            let linha = jogada.linha as int;
            let coluna = jogada.coluna as int;
            let gato = Gato { peca: jogada.peca, dono: jogador };
            let colocada = com_casa(g, linha, coluna, Some(gato));
            let depois = colocacao_e_boop(g, maos, jogada, jogador).0;
            &&& trios_de(colocada, jogador).len() > 0 ==> depois == colocada
            &&& trios_de(colocada, jogador).len() == 0 ==> depois == boop(
                colocada,
                linha,
                coluna,
                jogada.peca,
            ).0
            &&& depois == colocacao_e_boop(g, outras_maos, jogada, jogador).0
            &&& casa(depois, linha, coluna) == Some(gato)
        }),
{
    let linha = jogada.linha as int;
    let coluna = jogada.coluna as int;
    let gato = Gato { peca: jogada.peca, dono: jogador };
    let colocada = com_casa(g, linha, coluna, Some(gato));
    assert(colocada.len() == 36);
    boop_so_muda_o_alcance(colocada, linha, coluna, jogada.peca, linha, coluna, 8);
}

/// A grade ao fim do turno depende so da grade, da jogada e do jogador, e nao
/// das maos.
pub proof fn grade_do_turno_nao_depende_das_maos(
    g: Seq<Celula>,
    maos: Maos,
    outras_maos: Maos,
    jogada: Jogada,
    jogador: Jogador,
)
    ensures
        fluxo(g, maos, jogada, jogador).0 == fluxo(g, outras_maos, jogada, jogador).0,
{
}

/// Quando a colocacao nao fecha trio e o boop nao deixa trio de nenhum dos
/// dois jogadores, a grade ao fim do turno e a grade com a peca colocada e
/// empurrada nas 8 direcoes.
pub proof fn turno_sem_trios_e_colocacao_e_boop(
    g: Seq<Celula>,
    maos: Maos,
    jogada: Jogada,
    jogador: Jogador,
)
    ensures
        ({
            let linha = jogada.linha as int;
            let coluna = jogada.coluna as int;
            let colocada = com_casa(
                g,
                linha,
                coluna,
                Some(Gato { peca: jogada.peca, dono: jogador }),
            );
            let empurrada = boop(colocada, linha, coluna, jogada.peca).0;
            trios_de(colocada, jogador).len() == 0 && trios_de(empurrada, jogador).len() == 0
                && trios_de(empurrada, oponente_de(jogador)).len() == 0 ==> fluxo(
                g,
                maos,
                jogada,
                jogador,
            ).0 == empurrada
        }),
{
}

} // verus!
