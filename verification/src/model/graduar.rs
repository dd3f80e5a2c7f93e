//! Graduacao de trios de gatinhos.
//!
//! Cada posicao so pode entrar em um unico trio: assim que um trio e aceito,
//! suas tres casas ficam marcadas como consumidas e nenhum outro trio pode
//! reutiliza-las.
use vstd::prelude::*;

use crate::model::tipos::{
    casa, com_casa, consistente, conta_de, deslocar, direcao_unitaria, indice, lemma_conta_update, na_grade,
    oponente_de, passo, tabuleiro_tem_36_casas, Celula, Gato, Jogador, Maos, Peca, Tabuleiro,
    DIRECOES_LINHA, TAMANHO_TABULEIRO, TAMANHO_TRIO,
};

verus! {

broadcast use tabuleiro_tem_36_casas;

/// O `k`-esimo candidato a trio na varredura (`0 <= k < 144`): a casa de
/// partida, linha a linha e coluna a coluna, e depois a direcao, na ordem de
/// `DIRECOES_LINHA`.
pub open spec fn candidato(k: int) -> (int, int, (isize, isize)) {
    (k / 24, (k % 24) / 4, DIRECOES_LINHA@[k % 4])
}

/// A varredura passa pela casa `(linha, coluna)` com a direcao de indice `d`
/// no passo `24 * linha + 4 * coluna + d`.
pub proof fn lemma_candidato(linha: int, coluna: int, d: int)
    requires
        0 <= linha < 6,
        0 <= coluna < 6,
        0 <= d < 4,
    ensures
        candidato(24 * linha + 4 * coluna + d) == (linha, coluna, DIRECOES_LINHA@[d]),
{
    let k = 24 * linha + 4 * coluna + d;
    assert(k / 24 == linha && k % 24 == 4 * coluna + d) by (nonlinear_arith)
        requires
            k == 24 * linha + 4 * coluna + d,
            0 <= 4 * coluna + d < 24,
    ;
    assert((4 * coluna + d) / 4 == coluna && (4 * coluna + d) % 4 == d) by (nonlinear_arith)
        requires
            0 <= d < 4,
    ;
    assert(k % 4 == d) by (nonlinear_arith)
        requires
            k == 24 * linha + 4 * coluna + d,
            0 <= d < 4,
    ;
}

/// As `TAMANHO_TRIO` posicoes a partir de `(linha, coluna)` seguindo
/// `direcao`; `None` se alguma delas sair do tabuleiro.
pub open spec fn alinhamento_de(linha: usize, coluna: usize, direcao: (isize, isize)) -> Option<
    Seq<(usize, usize)>,
> {
    match passo(linha as int, coluna as int, direcao) {
        None => None,
        Some(p1) => match passo(p1.0 as int, p1.1 as int, direcao) {
            None => None,
            Some(p2) => Some(seq![(linha, coluna), p1, p2]),
        },
    }
}

/// Indice, na grade, da casa `p`.
pub open spec fn indice_de(p: (usize, usize)) -> int {
    indice(p.0 as int, p.1 as int)
}

/// `true` se a casa de indice `i` pertence a algum trio de `ts`.
pub open spec fn marcada(ts: Seq<Seq<(usize, usize)>>, i: int) -> bool {
    exists|x: int, a: int| 0 <= x < ts.len() && 0 <= a < 3 && #[trigger] indice_de(ts[x][a]) == i
}

/// `true` se o trio `t` usa alguma casa ja usada por um trio de `ts`.
pub open spec fn toca(ts: Seq<Seq<(usize, usize)>>, t: Seq<(usize, usize)>) -> bool {
    marcada(ts, indice_de(t[0])) || marcada(ts, indice_de(t[1])) || marcada(ts, indice_de(t[2]))
}

/// A casa `p` tem um gatinho de `jogador`.
pub open spec fn gatinho_de(g: Seq<Celula>, jogador: Jogador, p: (usize, usize)) -> bool {
    casa(g, p.0 as int, p.1 as int) == Some(Gato { peca: Peca::Gatinho, dono: jogador })
}

/// Trios aceitos entre os `k` primeiros candidatos da varredura: um candidato
/// e aceito quando cabe no tabuleiro, suas tres casas tem gatinhos de
/// `jogador` e nenhuma delas pertence a um trio aceito antes.
pub open spec fn trios_ate(g: Seq<Celula>, jogador: Jogador, k: nat) -> Seq<Seq<(usize, usize)>>
    decreases k,
{
    if k == 0 {
        Seq::empty()
    } else {
        let ts = trios_ate(g, jogador, (k - 1) as nat);
        let (linha, coluna, direcao) = candidato(k - 1);
        match alinhamento_de(linha as usize, coluna as usize, direcao) {
            None => ts,
            Some(t) => if !toca(ts, t) && gatinho_de(g, jogador, t[0]) && gatinho_de(
                g,
                jogador,
                t[1],
            ) && gatinho_de(g, jogador, t[2]) {
                ts.push(t)
            } else {
                ts
            },
        }
    }
}

/// Os trios de gatinhos de `jogador` que a varredura completa aceita.
pub open spec fn trios_de(g: Seq<Celula>, jogador: Jogador) -> Seq<Seq<(usize, usize)>> {
    trios_ate(g, jogador, 144)
}

/// Calcula as `TAMANHO_TRIO` posicoes a partir de `(linha, coluna)` seguindo
/// `direcao`. `None` se alguma delas sair do tabuleiro.
fn alinhamento(linha: usize, coluna: usize, direcao: (isize, isize)) -> (r: Option<
    [(usize, usize); TAMANHO_TRIO],
>)
    ensures
        match r {
            Some(posicoes) => alinhamento_de(linha, coluna, direcao) == Some(posicoes@),
            None => alinhamento_de(linha, coluna, direcao) is None,
        },
{
    let p1 = match deslocar(linha, coluna, direcao) {
        Some(p) => p,
        None => return None,
    };
    let p2 = match deslocar(p1.0, p1.1, direcao) {
        Some(p) => p,
        None => return None,
    };
    let posicoes = [(linha, coluna), p1, p2];
    assert(posicoes@ =~= seq![(linha, coluna), p1, p2]);
    Some(posicoes)
}

/// Lista as posicoes dos trios de gatinhos do jogador, sem alterar o tabuleiro.
///
/// Varre o tabuleiro em ordem deterministica (linha, depois coluna, depois
/// `DIRECOES_LINHA`) marcando as casas ja usadas por um trio aceito, de forma
/// que nenhuma peca participe de dois trios ao mesmo tempo.
pub fn trios_de_gatinhos(tabuleiro: &Tabuleiro, jogador: Jogador) -> (r: Vec<[(usize, usize); 3]>)
    ensures
        vista(r@) == trios_de(tabuleiro@, jogador),
{
    let ghost g = tabuleiro@;
    let mut consumida = [false; 36];
    let mut trios: Vec<[(usize, usize); 3]> = Vec::new();

    let mut linha: usize = 0;
    while linha < TAMANHO_TABULEIRO
        invariant
            linha <= 6,
            g == tabuleiro@,
            vista(trios@) == trios_ate(
                g,
                jogador,
                (24 * linha) as nat,
            ),
            forall|i: int|
                0 <= i < 36 ==> (consumida@[i] <==> marcada(
                    trios_ate(g, jogador, (24 * linha) as nat),
                    i,
                )),
        decreases 6 - linha,
    {
        let mut coluna: usize = 0;
        while coluna < TAMANHO_TABULEIRO
            invariant
                linha < 6,
                coluna <= 6,
                g == tabuleiro@,
                vista(trios@) == trios_ate(
                    g,
                    jogador,
                    (24 * linha + 4 * coluna) as nat,
                ),
                forall|i: int|
                    0 <= i < 36 ==> (consumida@[i] <==> marcada(
                        trios_ate(g, jogador, (24 * linha + 4 * coluna) as nat),
                        i,
                    )),
            decreases 6 - coluna,
        {
            let mut d: usize = 0;
            while d < 4
                invariant
                    linha < 6,
                    coluna < 6,
                    d <= 4,
                    g == tabuleiro@,
                    vista(trios@) == trios_ate(
                        g,
                        jogador,
                        (24 * linha + 4 * coluna + d) as nat,
                    ),
                    forall|i: int|
                        0 <= i < 36 ==> (consumida@[i] <==> marcada(
                            trios_ate(g, jogador, (24 * linha + 4 * coluna + d) as nat),
                            i,
                        )),
                decreases 4 - d,
            {
                let ghost k = 24 * linha + 4 * coluna + d;
                let ghost ts = trios_ate(g, jogador, k as nat);
                proof {
                    lemma_candidato(linha as int, coluna as int, d as int);
                }
                let direcao = DIRECOES_LINHA[d];
                let alinhado = alinhamento(linha, coluna, direcao);
                if let Some(posicoes) = alinhado {
                    let p0 = posicoes[0];
                    let p1 = posicoes[1];
                    let p2 = posicoes[2];
                    let ja_usada = consumida[p0.0 * 6 + p0.1] || consumida[p1.0 * 6 + p1.1]
                        || consumida[p2.0 * 6 + p2.1];
                    let todas_gatinhos_do_jogador = e_gatinho_de(tabuleiro, jogador, p0)
                        && e_gatinho_de(tabuleiro, jogador, p1) && e_gatinho_de(
                        tabuleiro,
                        jogador,
                        p2,
                    );
                    proof {
                        assert(ja_usada == toca(ts, posicoes@));
                    }
                    if !ja_usada && todas_gatinhos_do_jogador {
                        let ghost antes = consumida@;
                        consumida[p0.0 * 6 + p0.1] = true;
                        consumida[p1.0 * 6 + p1.1] = true;
                        consumida[p2.0 * 6 + p2.1] = true;
                        let ghost v = trios@;
                        trios.push(posicoes);
                        proof {
                            lemma_vista_push(v, posicoes);
                            lemma_marcada_push(ts, posicoes@);
                            assert forall|i: int| 0 <= i < 36 implies (consumida@[i] <==> marcada(
                                ts.push(posicoes@),
                                i,
                            )) by {
                                assert(antes[i] <==> marcada(ts, i));
                            }
                        }
                    }
                }
                proof {
                    lemma_passo_varredura(g, jogador, k, ts);
                }
                d += 1;
            }
            coluna += 1;
        }
        linha += 1;
    }
    trios
}


/// A grade sem as pecas das tres casas do trio `t`.
pub open spec fn sem_trio(g: Seq<Celula>, t: Seq<(usize, usize)>) -> Seq<Celula> {
    com_casa(
        com_casa(com_casa(g, t[0].0 as int, t[0].1 as int, None), t[1].0 as int, t[1].1 as int, None),
        t[2].0 as int,
        t[2].1 as int,
        None,
    )
}

/// A grade sem as pecas dos `n` primeiros trios de `ts`, removidos em ordem.
pub open spec fn sem_trios(g: Seq<Celula>, ts: Seq<Seq<(usize, usize)>>, n: nat) -> Seq<Celula>
    decreases n,
{
    if n == 0 {
        g
    } else {
        sem_trio(sem_trios(g, ts, (n - 1) as nat), ts[n - 1])
    }
}

/// Grade e maos depois de graduar os trios de `jogador`: as pecas dos trios
/// saem do tabuleiro e cada trio vira 3 gatoes na mao do jogador.
pub open spec fn graduacao(g: Seq<Celula>, maos: Maos, jogador: Jogador) -> (Seq<Celula>, Maos) {
    let ts = trios_de(g, jogador);
    (sem_trios(g, ts, ts.len()), maos.com(jogador, maos.mao(jogador).apos_graduar(ts.len())))
}

/// A mao de `jogador` pode receber os trios graduados: esta bem formada e tem
/// pelo menos 3 pecas ativas por trio.
pub open spec fn pode_graduar(g: Seq<Celula>, maos: Maos, jogador: Jogador) -> bool {
    let n = trios_de(g, jogador).len();
    n > 0 ==> maos.mao(jogador).bem_formada() && maos.mao(jogador).ativas >= 3 * n
}

/// Gradua todos os trios de gatinhos do jogador presentes no tabuleiro.
///
/// Remove as pecas do tabuleiro e devolve 3 gatoes a mao por trio graduado.
/// Retorna quantos trios foram graduados.
pub fn graduar(tabuleiro: &mut Tabuleiro, jogador: Jogador, maos: &mut Maos) -> (r: usize)
    requires
        pode_graduar(old(tabuleiro)@, *old(maos), jogador),
    ensures
        r == trios_de(old(tabuleiro)@, jogador).len(),
        (final(tabuleiro)@, *final(maos)) == graduacao(old(tabuleiro)@, *old(maos), jogador),
        trios_de(final(tabuleiro)@, jogador).len() == 0,
{
    proof {
        graduar_nao_deixa_trios(tabuleiro@, *maos, jogador);
    }
    let ghost g = tabuleiro@;
    let ghost m = *maos;
    let trios = trios_de_gatinhos(tabuleiro, jogador);
    let ghost ts = trios_de(g, jogador);
    assert(trios@.len() == ts.len());
    let mut i: usize = 0;
    while i < trios.len()
        invariant
            i <= trios@.len() == ts.len(),
            ts == trios_de(g, jogador),
            vista(trios@) == ts,
            pode_graduar(g, m, jogador),
            tabuleiro@ == sem_trios(g, ts, i as nat),
            *maos == m.com(jogador, m.mao(jogador).apos_graduar(i as nat)),
        decreases trios@.len() - i,
    {
        let trio = trios[i];
        assert(trio@ == ts[i as int]);
        for a in 0..3
            invariant
                i < ts.len(),
                trio@ == ts[i as int],
                tabuleiro@ == ({
                    let anterior = sem_trios(g, ts, i as nat);
                    if a == 0 {
                        anterior
                    } else if a == 1 {
                        com_casa(anterior, trio@[0].0 as int, trio@[0].1 as int, None)
                    } else if a == 2 {
                        com_casa(
                            com_casa(anterior, trio@[0].0 as int, trio@[0].1 as int, None),
                            trio@[1].0 as int,
                            trio@[1].1 as int,
                            None,
                        )
                    } else {
                        sem_trio(anterior, trio@)
                    }
                }),
        {
            let (linha, coluna) = trio[a];
            tabuleiro.set(linha, coluna, None);
        }
        proof {
            m.mao(jogador).lemma_graduar_um_a_um(i as nat);
        }
        maos.de(jogador).graduar_trio();
        i += 1;
    }
    trios.len()
}

/// Vista de uma lista de trios como sequencias de posicoes.
pub open spec fn vista(v: Seq<[(usize, usize); 3]>) -> Seq<Seq<(usize, usize)>> {
    v.map_values(|t: [(usize, usize); 3]| t@)
}

proof fn lemma_vista_push(v: Seq<[(usize, usize); 3]>, t: [(usize, usize); 3])
    ensures
        vista(v.push(t)) == vista(v).push(t@),
{
    assert(vista(v.push(t)) =~= vista(v).push(t@));
}

/// Uma casa esta marcada depois de aceitar `t` se ja estava ou e de `t`.
proof fn lemma_marcada_push(ts: Seq<Seq<(usize, usize)>>, t: Seq<(usize, usize)>)
    requires
        t.len() == 3,
    ensures
        forall|i: int|
            #![trigger marcada(ts.push(t), i)]
            marcada(ts.push(t), i) <==> (marcada(ts, i) || i == indice_de(t[0]) || i
                == indice_de(t[1]) || i == indice_de(t[2])),
{
    let novos = ts.push(t);
    assert forall|i: int|
        #![trigger marcada(ts.push(t), i)]
        marcada(novos, i) <==> (marcada(ts, i) || i == indice_de(t[0]) || i == indice_de(t[1])
            || i == indice_de(t[2])) by {
        if marcada(novos, i) {
            let (x, a) = choose|x: int, a: int|
                0 <= x < novos.len() && 0 <= a < 3 && #[trigger] indice_de(novos[x][a]) == i;
            if x < ts.len() {
                assert(novos[x] == ts[x]);
                assert(indice_de(ts[x][a]) == i);
            } else {
                assert(novos[x] == t);
            }
        }
        if marcada(ts, i) {
            let (x, a) = choose|x: int, a: int|
                0 <= x < ts.len() && 0 <= a < 3 && #[trigger] indice_de(ts[x][a]) == i;
            assert(novos[x] == ts[x]);
            assert(indice_de(novos[x][a]) == i);
        }
        let n = ts.len() as int;
        assert(novos[n] == t);
        if i == indice_de(t[0]) {
            assert(indice_de(novos[n][0]) == i);
        }
        if i == indice_de(t[1]) {
            assert(indice_de(novos[n][1]) == i);
        }
        if i == indice_de(t[2]) {
            assert(indice_de(novos[n][2]) == i);
        }
    }
}

/// Um passo da varredura: o candidato `k` e aceito exatamente nas condicoes
/// de `trios_ate`.
proof fn lemma_passo_varredura(g: Seq<Celula>, jogador: Jogador, k: int, ts: Seq<Seq<(usize, usize)>>)
    requires
        0 <= k,
        ts == trios_ate(g, jogador, k as nat),
    ensures
        trios_ate(g, jogador, (k + 1) as nat) == ({
            let (linha, coluna, direcao) = candidato(k);
            match alinhamento_de(linha as usize, coluna as usize, direcao) {
                None => ts,
                Some(t) => if !toca(ts, t) && gatinho_de(g, jogador, t[0]) && gatinho_de(
                    g,
                    jogador,
                    t[1],
                ) && gatinho_de(g, jogador, t[2]) {
                    ts.push(t)
                } else {
                    ts
                },
            }
        }),
{
}

/// `true` se a casa `p` (dentro do tabuleiro) tem um gatinho de `jogador`.
fn e_gatinho_de(tabuleiro: &Tabuleiro, jogador: Jogador, p: (usize, usize)) -> (r: bool)
    ensures
        r == gatinho_de(tabuleiro@, jogador, p),
{
    match tabuleiro.get(p.0, p.1) {
        Some(gato) => gato.peca == Peca::Gatinho && gato.dono == jogador,
        None => false,
    }
}

/// `true` se os trios de `ts` estao no tabuleiro, sao feitos de gatinhos de
/// `jogador` em `g` e nenhuma casa aparece duas vezes, nem no mesmo trio nem
/// em trios diferentes.
pub open spec fn trios_validos(g: Seq<Celula>, jogador: Jogador, ts: Seq<Seq<(usize, usize)>>) -> bool {
    &&& forall|x: int| 0 <= x < ts.len() ==> (#[trigger] ts[x]).len() == 3
    &&& forall|x: int, a: int|
        0 <= x < ts.len() && 0 <= a < 3 ==> na_grade(
            (#[trigger] ts[x][a]).0 as int,
            ts[x][a].1 as int,
        ) && gatinho_de(g, jogador, ts[x][a])
    &&& forall|x: int, a: int, y: int, b: int|
        0 <= x < ts.len() && 0 <= a < 3 && 0 <= y < ts.len() && 0 <= b < 3 && (x != y || a != b)
            ==> indice_de(#[trigger] ts[x][a]) != indice_de(#[trigger] ts[y][b])
}

/// Os candidatos da varredura partem de casas do tabuleiro e seguem uma das
/// direcoes de `DIRECOES_LINHA`.
pub proof fn lemma_candidato_na_grade(k: int)
    requires
        0 <= k < 144,
    ensures
        na_grade(candidato(k).0, candidato(k).1),
        candidato(k).2 == (0isize, 1isize) || candidato(k).2 == (1isize, 0isize) || candidato(k).2
            == (1isize, 1isize) || candidato(k).2 == (-1isize, 1isize),
{
    assert(0 <= k / 24 < 6 && 0 <= (k % 24) / 4 < 6 && 0 <= k % 4 < 4) by (nonlinear_arith)
        requires
            0 <= k < 144,
    ;
}

/// Cada peca so conta em um trio: os trios aceitos pela varredura sao feitos
/// de gatinhos do jogador, dentro do tabuleiro, sem casa repetida.
pub proof fn trios_sao_disjuntos(g: Seq<Celula>, jogador: Jogador, k: nat)
    requires
        k <= 144,
    ensures
        trios_validos(g, jogador, trios_ate(g, jogador, k)),
    decreases k,
{
    if k > 0 {
        let ts = trios_ate(g, jogador, (k - 1) as nat);
        trios_sao_disjuntos(g, jogador, (k - 1) as nat);
        lemma_passo_varredura(g, jogador, k - 1, ts);
        lemma_candidato_na_grade(k - 1);
        let (linha, coluna, direcao) = candidato(k - 1);
        if let Some(t) = alinhamento_de(linha as usize, coluna as usize, direcao) {
            if !toca(ts, t) && gatinho_de(g, jogador, t[0]) && gatinho_de(g, jogador, t[1])
                && gatinho_de(g, jogador, t[2]) {
                let novos = ts.push(t);
                let n = ts.len() as int;
                assert(novos[n] == t);
                assert forall|x: int, a: int, y: int, b: int|
                    0 <= x < novos.len() && 0 <= a < 3 && 0 <= y < novos.len() && 0 <= b < 3 && (x
                        != y || a != b) implies indice_de(#[trigger] novos[x][a]) != indice_de(
                    #[trigger] novos[y][b],
                ) by {
                    if x < n && y < n {
                        assert(novos[x] == ts[x] && novos[y] == ts[y]);
                    } else if x < n {
                        assert(novos[x] == ts[x]);
                        assert(!marcada(ts, indice_de(t[b])));
                    } else if y < n {
                        assert(novos[y] == ts[y]);
                        assert(!marcada(ts, indice_de(t[a])));
                    }
                }
                assert forall|x: int, a: int|
                    0 <= x < novos.len() && 0 <= a < 3 implies na_grade(
                    (#[trigger] novos[x][a]).0 as int,
                    novos[x][a].1 as int,
                ) && gatinho_de(g, jogador, novos[x][a]) by {
                    if x < n {
                        assert(novos[x] == ts[x]);
                    }
                }
                assert forall|x: int| 0 <= x < novos.len() implies (#[trigger] novos[x]).len()
                    == 3 by {
                    if x < n {
                        assert(novos[x] == ts[x]);
                    }
                }
            }
        }
    }
}

/// Tirar as pecas de um trio valido tira 3 pecas do jogador e nenhuma do
/// adversario, e nao mexe nas outras casas.
proof fn lemma_sem_trio(g: Seq<Celula>, jogador: Jogador, t: Seq<(usize, usize)>)
    requires
        g.len() == 36,
        t.len() == 3,
        forall|a: int|
            0 <= a < 3 ==> na_grade((#[trigger] t[a]).0 as int, t[a].1 as int) && gatinho_de(
                g,
                jogador,
                t[a],
            ),
        indice_de(t[0]) != indice_de(t[1]),
        indice_de(t[0]) != indice_de(t[2]),
        indice_de(t[1]) != indice_de(t[2]),
    ensures
        sem_trio(g, t).len() == 36,
        conta_de(sem_trio(g, t), jogador, 36) + 3 == conta_de(g, jogador, 36),
        conta_de(sem_trio(g, t), oponente_de(jogador), 36) == conta_de(
            g,
            oponente_de(jogador),
            36,
        ),
        forall|i: int|
            0 <= i < 36 && i != indice_de(t[0]) && i != indice_de(t[1]) && i != indice_de(t[2])
                ==> #[trigger] sem_trio(g, t)[i] == g[i],
{
    let p0 = t[0];
    let p1 = t[1];
    let p2 = t[2];
    assert(na_grade(p0.0 as int, p0.1 as int) && gatinho_de(g, jogador, p0));
    assert(na_grade(p1.0 as int, p1.1 as int) && gatinho_de(g, jogador, p1));
    assert(na_grade(p2.0 as int, p2.1 as int) && gatinho_de(g, jogador, p2));
    let i0 = indice_de(p0);
    let i1 = indice_de(p1);
    let i2 = indice_de(p2);
    let outro = oponente_de(jogador);
    let g1 = g.update(i0, None);
    let g2 = g1.update(i1, None);
    lemma_conta_update(g, i0, None, jogador, 36);
    lemma_conta_update(g, i0, None, outro, 36);
    lemma_conta_update(g1, i1, None, jogador, 36);
    lemma_conta_update(g1, i1, None, outro, 36);
    lemma_conta_update(g2, i2, None, jogador, 36);
    lemma_conta_update(g2, i2, None, outro, 36);
}

/// Tirar, em ordem, as pecas dos `n` primeiros trios validos tira `3 * n`
/// pecas do jogador e nenhuma do adversario, e nao mexe nas casas fora deles.
proof fn lemma_sem_trios(g: Seq<Celula>, jogador: Jogador, ts: Seq<Seq<(usize, usize)>>, n: nat)
    requires
        g.len() == 36,
        trios_validos(g, jogador, ts),
        n <= ts.len(),
    ensures
        sem_trios(g, ts, n).len() == 36,
        conta_de(sem_trios(g, ts, n), jogador, 36) + 3 * n == conta_de(g, jogador, 36),
        conta_de(sem_trios(g, ts, n), oponente_de(jogador), 36) == conta_de(
            g,
            oponente_de(jogador),
            36,
        ),
        forall|i: int|
            0 <= i < 36 && (forall|x: int, a: int|
                0 <= x < n && 0 <= a < 3 ==> indice_de(#[trigger] ts[x][a]) != i)
                ==> #[trigger] sem_trios(g, ts, n)[i] == g[i],
        forall|x: int, a: int|
            0 <= x < n && 0 <= a < 3 ==> (#[trigger] sem_trios(g, ts, n)[indice_de(ts[x][a])]) is None,
    decreases n,
{
    if n > 0 {
        let m = (n - 1) as nat;
        lemma_sem_trios(g, jogador, ts, m);
        let anterior = sem_trios(g, ts, m);
        let t = ts[m as int];
        assert(t.len() == 3);
        assert forall|a: int|
            0 <= a < 3 implies na_grade((#[trigger] t[a]).0 as int, t[a].1 as int) && gatinho_de(
            anterior,
            jogador,
            t[a],
        ) by {
            assert(na_grade(ts[m as int][a].0 as int, ts[m as int][a].1 as int));
            assert(gatinho_de(g, jogador, ts[m as int][a]));
            let i = indice_de(t[a]);
            assert forall|x: int, b: int| 0 <= x < m && 0 <= b < 3 implies indice_de(
                #[trigger] ts[x][b],
            ) != i by {
                assert(indice_de(ts[x][b]) != indice_de(ts[m as int][a]));
            }
            assert(anterior[i] == g[i]);
        }
        assert(indice_de(ts[m as int][0]) != indice_de(ts[m as int][1]));
        assert(indice_de(ts[m as int][0]) != indice_de(ts[m as int][2]));
        assert(indice_de(ts[m as int][1]) != indice_de(ts[m as int][2]));
        lemma_sem_trio(anterior, jogador, t);
        assert forall|x: int, a: int|
            0 <= x < n && 0 <= a < 3 implies (#[trigger] sem_trios(g, ts, n)[indice_de(
            ts[x][a],
        )]) is None by {
            let i = indice_de(ts[x][a]);
            assert(na_grade(ts[x][a].0 as int, ts[x][a].1 as int));
            if x < m {
                assert(anterior[i] is None);
            } else {
                assert(ts[x] == t);
            }
        }
        assert forall|i: int|
            0 <= i < 36 && (forall|x: int, a: int|
                0 <= x < n && 0 <= a < 3 ==> indice_de(#[trigger] ts[x][a]) != i) implies #[trigger] sem_trios(
            g,
            ts,
            n,
        )[i] == g[i] by {
            assert(indice_de(ts[m as int][0]) != i);
            assert(indice_de(ts[m as int][1]) != i);
            assert(indice_de(ts[m as int][2]) != i);
            assert forall|x: int, a: int| 0 <= x < m && 0 <= a < 3 implies indice_de(
                #[trigger] ts[x][a],
            ) != i by {}
            assert(anterior[i] == g[i]);
        }
    }
}

/// Os trios aceitos ate o passo `k` da varredura continuam, na mesma ordem,
/// no inicio da lista de trios aceitos ate qualquer passo seguinte.
proof fn lemma_trios_prefixo(g: Seq<Celula>, jogador: Jogador, k: nat, m: nat)
    requires
        k <= m,
    ensures
        trios_ate(g, jogador, k).len() <= trios_ate(g, jogador, m).len(),
        forall|x: int|
            0 <= x < trios_ate(g, jogador, k).len() ==> #[trigger] trios_ate(g, jogador, m)[x]
                == trios_ate(g, jogador, k)[x],
    decreases m - k,
{
    if k < m {
        lemma_trios_prefixo(g, jogador, k, (m - 1) as nat);
        lemma_passo_varredura(g, jogador, m - 1, trios_ate(g, jogador, (m - 1) as nat));
    }
}

/// Depois de graduar, nao sobra nenhum trio de gatinhos do jogador: todo
/// alinhamento de tres gatinhos seus foi graduado ou perdeu uma peca para um
/// trio graduado.
pub proof fn graduar_nao_deixa_trios(g: Seq<Celula>, maos: Maos, jogador: Jogador)
    requires
        g.len() == 36,
    ensures
        trios_de(graduacao(g, maos, jogador).0, jogador).len() == 0,
{
    let ts = trios_de(g, jogador);
    let n = ts.len();
    let g2 = sem_trios(g, ts, n);
    trios_sao_disjuntos(g, jogador, 144);
    lemma_sem_trios(g, jogador, ts, n);
    lemma_sem_varredura_vazia(g, jogador, 144);
}

/// Na grade sem os trios graduados, a varredura nao aceita nenhum candidato.
proof fn lemma_sem_varredura_vazia(g: Seq<Celula>, jogador: Jogador, k: nat)
    requires
        g.len() == 36,
        k <= 144,
        trios_validos(g, jogador, trios_de(g, jogador)),
        ({
            let ts = trios_de(g, jogador);
            &&& forall|i: int|
                0 <= i < 36 && (forall|x: int, a: int|
                    0 <= x < ts.len() && 0 <= a < 3 ==> indice_de(#[trigger] ts[x][a]) != i)
                    ==> #[trigger] sem_trios(g, ts, ts.len())[i] == g[i]
            &&& forall|x: int, a: int|
                0 <= x < ts.len() && 0 <= a < 3 ==> (#[trigger] sem_trios(g, ts, ts.len())[indice_de(
                    ts[x][a],
                )]) is None
        }),
    ensures
        trios_ate(sem_trios(g, trios_de(g, jogador), trios_de(g, jogador).len()), jogador, k).len()
            == 0,
    decreases k,
{
    let ts = trios_de(g, jogador);
    let g2 = sem_trios(g, ts, ts.len());
    if k > 0 {
        lemma_sem_varredura_vazia(g, jogador, (k - 1) as nat);
        let vazio = trios_ate(g2, jogador, (k - 1) as nat);
        lemma_passo_varredura(g2, jogador, k - 1, vazio);
        let (linha, coluna, direcao) = candidato(k - 1);
        if let Some(t) = alinhamento_de(linha as usize, coluna as usize, direcao) {
            if gatinho_de(g2, jogador, t[0]) && gatinho_de(g2, jogador, t[1]) && gatinho_de(
                g2,
                jogador,
                t[2],
            ) {
                lemma_candidato_na_grade(k - 1);
                // Nenhuma casa de `t` foi esvaziada, entao `t` ja era um trio
                // de gatinhos na grade antes da graduacao.
                assert forall|b: int| 0 <= b < 3 implies !marcada(ts, #[trigger] indice_de(t[b]))
                    && gatinho_de(g, jogador, t[b]) by {
                    let i = indice_de(t[b]);
                    if marcada(ts, i) {
                        let (x, a) = choose|x: int, a: int|
                            0 <= x < ts.len() && 0 <= a < 3 && #[trigger] indice_de(ts[x][a]) == i;
                        assert(g2[indice_de(ts[x][a])] is None);
                    } else {
                        assert forall|x: int, a: int| 0 <= x < ts.len() && 0 <= a < 3 implies indice_de(
                            #[trigger] ts[x][a],
                        ) != i by {}
                        assert(g2[i] == g[i]);
                    }
                }
                // Na varredura antes da graduacao, `t` foi aceito ou tocava um trio
                // aceito antes; nos dois casos alguma casa sua esta marcada.
                let antes = trios_ate(g, jogador, (k - 1) as nat);
                lemma_passo_varredura(g, jogador, k - 1, antes);
                lemma_trios_prefixo(g, jogador, k as nat, 144);
                lemma_trios_prefixo(g, jogador, (k - 1) as nat, 144);
                if toca(antes, t) {
                    let b = if marcada(antes, indice_de(t[0])) {
                        0int
                    } else if marcada(antes, indice_de(t[1])) {
                        1int
                    } else {
                        2int
                    };
                    let i = indice_de(t[b]);
                    let (x, a) = choose|x: int, a: int|
                        0 <= x < antes.len() && 0 <= a < 3 && #[trigger] indice_de(antes[x][a]) == i;
                    assert(ts[x] == antes[x]);
                    assert(indice_de(ts[x][a]) == i);
                    assert(marcada(ts, i));
                } else {
                    let depois = trios_ate(g, jogador, k);
                    assert(depois == antes.push(t));
                    let x = antes.len() as int;
                    assert(depois[x] == t);
                    assert(ts[x] == t);
                    assert(indice_de(ts[x][0]) == indice_de(t[0]));
                    assert(marcada(ts, indice_de(t[0])));
                }
            }
        }
    }
}

/// A casa `(linha, coluna)` existe e tem um gatinho de `jogador`.
pub open spec fn gatinho_em(g: Seq<Celula>, linha: int, coluna: int, jogador: Jogador) -> bool {
    na_grade(linha, coluna) && casa(g, linha, coluna) == Some(
        Gato { peca: Peca::Gatinho, dono: jogador },
    )
}

/// Tres gatinhos do mesmo jogador em casas consecutivas, em qualquer uma das
/// 8 direcoes, fazem a varredura aceitar ao menos um trio desse jogador.
pub proof fn alinhamento_de_gatinhos_gera_trio(
    g: Seq<Celula>,
    jogador: Jogador,
    linha: int,
    coluna: int,
    direcao: (int, int),
)
    requires
        g.len() == 36,
        tres_gatinhos(g, jogador, linha, coluna, direcao),
    ensures
        trios_de(g, jogador).len() > 0,
{
    // O alinhamento e varrido a partir de uma das pontas, na direcao de
    // `DIRECOES_LINHA` que aponta para a outra.
    let (inicio_linha, inicio_coluna, d) = if direcao == (0int, 1int) {
        (linha, coluna, 0int)
    } else if direcao == (1int, 0int) {
        (linha, coluna, 1int)
    } else if direcao == (1int, 1int) {
        (linha, coluna, 2int)
    } else if direcao == (-1int, 1int) {
        (linha, coluna, 3int)
    } else if direcao == (0int, -1int) {
        (linha, coluna - 2, 0int)
    } else if direcao == (-1int, 0int) {
        (linha - 2, coluna, 1int)
    } else if direcao == (-1int, -1int) {
        (linha - 2, coluna - 2, 2int)
    } else {
        (linha + 2, coluna - 2, 3int)
    };
    let e = DIRECOES_LINHA@[d];
    assert(gatinho_em(g, inicio_linha, inicio_coluna, jogador));
    assert(gatinho_em(g, inicio_linha + e.0, inicio_coluna + e.1, jogador));
    assert(gatinho_em(g, inicio_linha + 2 * e.0, inicio_coluna + 2 * e.1, jogador));
    lemma_trio_a_partir_de(g, jogador, inicio_linha, inicio_coluna, d);
}

/// Tres gatinhos a partir de `(linha, coluna)` na direcao de indice `d` de
/// `DIRECOES_LINHA` fazem a varredura aceitar ao menos um trio.
proof fn lemma_trio_a_partir_de(g: Seq<Celula>, jogador: Jogador, linha: int, coluna: int, d: int)
    requires
        g.len() == 36,
        0 <= d < 4,
        gatinho_em(g, linha, coluna, jogador),
        gatinho_em(g, linha + DIRECOES_LINHA@[d].0, coluna + DIRECOES_LINHA@[d].1, jogador),
        gatinho_em(
            g,
            linha + 2 * DIRECOES_LINHA@[d].0,
            coluna + 2 * DIRECOES_LINHA@[d].1,
            jogador,
        ),
    ensures
        trios_de(g, jogador).len() > 0,
{
    let e = DIRECOES_LINHA@[d];
    lemma_candidato(linha, coluna, d);
    let k = 24 * linha + 4 * coluna + d;
    let ts = trios_ate(g, jogador, k as nat);
    lemma_passo_varredura(g, jogador, k, ts);
    lemma_trios_prefixo(g, jogador, (k + 1) as nat, 144);
    lemma_trios_prefixo(g, jogador, k as nat, 144);
    if ts.len() == 0 {
        let p1 = ((linha + e.0) as usize, (coluna + e.1) as usize);
        let p2 = ((linha + 2 * e.0) as usize, (coluna + 2 * e.1) as usize);
        assert(passo(linha as usize as int, coluna as usize as int, e) == Some(p1));
        assert(passo(p1.0 as int, p1.1 as int, e) == Some(p2));
        let t = seq![(linha as usize, coluna as usize), p1, p2];
        assert(alinhamento_de(linha as usize, coluna as usize, e) == Some(t));
        assert(gatinho_de(g, jogador, t[0]));
        assert(gatinho_de(g, jogador, t[1]));
        assert(gatinho_de(g, jogador, t[2]));
        assert(!toca(ts, t));
    }
}

/// Tres gatinhos de `jogador` em casas consecutivas na direcao `direcao`, a
/// partir de `(linha, coluna)`.
pub open spec fn tres_gatinhos(
    g: Seq<Celula>,
    jogador: Jogador,
    linha: int,
    coluna: int,
    direcao: (int, int),
) -> bool {
    &&& direcao_unitaria(direcao)
    &&& gatinho_em(g, linha, coluna, jogador)
    &&& gatinho_em(g, linha + direcao.0, coluna + direcao.1, jogador)
    &&& gatinho_em(g, linha + 2 * direcao.0, coluna + 2 * direcao.1, jogador)
}

/// A varredura so aceita um trio onde ha tres gatinhos do jogador em casas
/// consecutivas: se ela aceita algum, ha um tal alinhamento.
pub proof fn trio_vem_de_alinhamento(g: Seq<Celula>, jogador: Jogador, k: nat)
    requires
        k <= 144,
        trios_ate(g, jogador, k).len() > 0,
    ensures
        exists|linha: int, coluna: int, direcao: (int, int)|
            #[trigger] tres_gatinhos(g, jogador, linha, coluna, direcao),
    decreases k,
{
    let ts = trios_ate(g, jogador, (k - 1) as nat);
    if ts.len() > 0 {
        trio_vem_de_alinhamento(g, jogador, (k - 1) as nat);
    } else {
        lemma_passo_varredura(g, jogador, k - 1, ts);
        lemma_candidato_na_grade(k - 1);
        let (linha, coluna, d) = candidato(k - 1);
        let t = alinhamento_de(linha as usize, coluna as usize, d).unwrap();
        let direcao = (d.0 as int, d.1 as int);
        assert(gatinho_de(g, jogador, t[0]) && gatinho_de(g, jogador, t[1]) && gatinho_de(
            g,
            jogador,
            t[2],
        ));
        assert(tres_gatinhos(g, jogador, linha, coluna, direcao));
    }
}

/// Ha trio a graduar exatamente quando ha tres gatinhos do jogador em casas
/// consecutivas, em alguma das 8 direcoes.
pub proof fn ha_trio_sse_ha_alinhamento(g: Seq<Celula>, jogador: Jogador)
    requires
        g.len() == 36,
    ensures
        trios_de(g, jogador).len() > 0 <==> exists|linha: int, coluna: int, direcao: (int, int)|
            #[trigger] tres_gatinhos(g, jogador, linha, coluna, direcao),
{
    if trios_de(g, jogador).len() > 0 {
        trio_vem_de_alinhamento(g, jogador, 144);
    }
    if exists|linha: int, coluna: int, direcao: (int, int)|
        #[trigger] tres_gatinhos(g, jogador, linha, coluna, direcao) {
        let (linha, coluna, direcao) = choose|linha: int, coluna: int, direcao: (int, int)|
            #[trigger] tres_gatinhos(g, jogador, linha, coluna, direcao);
        alinhamento_de_gatinhos_gera_trio(g, jogador, linha, coluna, direcao);
    }
}

/// Depois de graduar, nao ha tres gatinhos do jogador em casas consecutivas
/// em nenhuma das 8 direcoes.
pub proof fn graduar_nao_deixa_alinhamentos(
    g: Seq<Celula>,
    maos: Maos,
    jogador: Jogador,
    linha: int,
    coluna: int,
    direcao: (int, int),
)
    requires
        g.len() == 36,
    ensures
        !tres_gatinhos(graduacao(g, maos, jogador).0, jogador, linha, coluna, direcao),
{
    let ts = trios_de(g, jogador);
    trios_sao_disjuntos(g, jogador, 144);
    lemma_sem_trios(g, jogador, ts, ts.len());
    graduar_nao_deixa_trios(g, maos, jogador);
    let g2 = graduacao(g, maos, jogador).0;
    if tres_gatinhos(g2, jogador, linha, coluna, direcao) {
        alinhamento_de_gatinhos_gera_trio(g2, jogador, linha, coluna, direcao);
    }
}

/// Graduar so esvazia casas: toda casa ocupada depois de graduar ja tinha a
/// mesma peca antes.
pub proof fn graduacao_so_esvazia(g: Seq<Celula>, maos: Maos, jogador: Jogador, linha: int, coluna: int)
    requires
        g.len() == 36,
    ensures
        graduacao(g, maos, jogador).0.len() == 36,
        casa(graduacao(g, maos, jogador).0, linha, coluna) is Some ==> casa(
            graduacao(g, maos, jogador).0,
            linha,
            coluna,
        ) == casa(g, linha, coluna),
{
    let ts = trios_de(g, jogador);
    trios_sao_disjuntos(g, jogador, 144);
    lemma_sem_trios(g, jogador, ts, ts.len());
    let g2 = graduacao(g, maos, jogador).0;
    if na_grade(linha, coluna) && casa(g2, linha, coluna) is Some {
        let i = indice(linha, coluna);
        if marcada(ts, i) {
            let (x, a) = choose|x: int, a: int|
                0 <= x < ts.len() && 0 <= a < 3 && #[trigger] indice_de(ts[x][a]) == i;
            assert(g2[indice_de(ts[x][a])] is None);
        } else {
            assert forall|x: int, a: int| 0 <= x < ts.len() && 0 <= a < 3 implies indice_de(
                #[trigger] ts[x][a],
            ) != i by {}
        }
    }
}

/// Graduar mantem as maos de acordo com o tabuleiro, e a mao do jogador
/// sempre tem pecas ativas suficientes para os trios graduados.
pub proof fn lemma_graduacao_consistente(g: Seq<Celula>, maos: Maos, jogador: Jogador)
    requires
        consistente(g, maos),
    ensures
        pode_graduar(g, maos, jogador),
        consistente(graduacao(g, maos, jogador).0, graduacao(g, maos, jogador).1),
{
    let ts = trios_de(g, jogador);
    trios_sao_disjuntos(g, jogador, 144);
    lemma_sem_trios(g, jogador, ts, ts.len());
}

} // verus!
