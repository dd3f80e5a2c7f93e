//! Condicoes de fim de jogo.
use vstd::prelude::*;

use crate::model::graduar::{candidato, lemma_candidato, lemma_candidato_na_grade};
use crate::model::tipos::{
    casa, deslocar, direcao_unitaria, na_grade, tabuleiro_tem_36_casas, Celula, Gato, Jogador, Maos, Peca,
    Tabuleiro, DIRECOES_LINHA, PECAS_POR_JOGADOR, TAMANHO_TABULEIRO,
};

verus! {

broadcast use tabuleiro_tem_36_casas;

/// Como a partida terminou.
#[derive(Debug, Clone, Copy, PartialEq, Eq, Structural)]
pub enum FimDeJogo {
    Vitoria(Jogador),
    Empate,
}

/// `true` se a celula tem um gatao.
pub open spec fn e_gatao(celula: Celula) -> bool {
    celula matches Some(gato) && gato.peca == Peca::Gatao
}

/// Dono do trio de gatoes do candidato `k` da varredura, se houver: a casa de
/// partida e as duas seguintes na direcao existem, tem gatoes e o mesmo dono.
pub open spec fn trio_de_gatoes(g: Seq<Celula>, k: int) -> Option<Jogador> {
    let (linha, coluna, direcao) = candidato(k);
    let l1 = linha + direcao.0;
    let c1 = coluna + direcao.1;
    let l2 = l1 + direcao.0;
    let c2 = c1 + direcao.1;
    match (casa(g, linha, coluna), casa(g, l1, c1), casa(g, l2, c2)) {
        (Some(gato1), Some(gato2), Some(gato3)) => if na_grade(l1, c1) && na_grade(l2, c2)
            && gato1.peca == Peca::Gatao && gato2.peca == Peca::Gatao && gato3.peca == Peca::Gatao
            && gato1.dono == gato2.dono && gato2.dono == gato3.dono {
            Some(gato1.dono)
        } else {
            None
        },
        _ => None,
    }
}

/// Dono do primeiro trio de gatoes entre os `k` primeiros candidatos.
pub open spec fn primeiro_trio_de_gatoes(g: Seq<Celula>, k: nat) -> Option<Jogador>
    decreases k,
{
    if k == 0 {
        None
    } else {
        match primeiro_trio_de_gatoes(g, (k - 1) as nat) {
            Some(dono) => Some(dono),
            None => trio_de_gatoes(g, k - 1),
        }
    }
}

/// O vencedor, se houver: cama cheia (todas as pecas ativas, com prioridade
/// ao jogador 1) ou, senao, o dono do primeiro trio de gatoes da varredura.
pub open spec fn vencedor(g: Seq<Celula>, maos: Maos) -> Option<Jogador> {
    if maos.jogador1.ativas == PECAS_POR_JOGADOR {
        Some(Jogador::Um)
    } else if maos.jogador2.ativas == PECAS_POR_JOGADOR {
        Some(Jogador::Dois)
    } else {
        primeiro_trio_de_gatoes(g, 144)
    }
}

/// `true` se nenhum dos jogadores tem pecas na mao.
pub open spec fn empate(maos: Maos) -> bool {
    maos.jogador1.gatinhos == 0 && maos.jogador1.gatoes == 0 && maos.jogador2.gatinhos == 0
        && maos.jogador2.gatoes == 0
}

/// Estado da partida: vitoria, que tem prioridade, empate, ou jogo em
/// andamento (`None`).
pub open spec fn estado(g: Seq<Celula>, maos: Maos) -> Option<FimDeJogo> {
    match vencedor(g, maos) {
        Some(jogador) => Some(FimDeJogo::Vitoria(jogador)),
        None => if empate(maos) {
            Some(FimDeJogo::Empate)
        } else {
            None
        },
    }
}

/// Achado um trio de gatoes, a varredura nao muda de resposta depois.
proof fn lemma_primeiro_estavel(g: Seq<Celula>, k: nat, n: nat)
    requires
        k <= n,
        primeiro_trio_de_gatoes(g, k) is Some,
    ensures
        primeiro_trio_de_gatoes(g, n) == primeiro_trio_de_gatoes(g, k),
    decreases n - k,
{
    if k < n {
        lemma_primeiro_estavel(g, k, (n - 1) as nat);
    }
}

/// Retorna o vencedor, se houver.
///
/// Vitoria pode ocorrer por:
/// 1. Cama cheia: um jogador tem todas as 8 pecas ativas no tabuleiro.
/// 2. Trio de gatoes: 3 gatoes consecutivos do mesmo dono em qualquer direcao.
pub fn verifica_vitoria(tabuleiro: &Tabuleiro, maos: &Maos) -> (r: Option<Jogador>)
    ensures
        r == vencedor(tabuleiro@, *maos),
{
    // Checar cama cheia: prioridade ao jogador 1
    if maos.ver(Jogador::Um).ativas == PECAS_POR_JOGADOR {
        return Some(Jogador::Um);
    }
    if maos.ver(Jogador::Dois).ativas == PECAS_POR_JOGADOR {
        return Some(Jogador::Dois);
    }
    let ghost g = tabuleiro@;

    // Varrer o tabuleiro procurando por trio de gatoes. Basta que as duas
    // casas seguintes existam: um trio encostado na borda tambem vale.
    let mut linha: usize = 0;
    while linha < TAMANHO_TABULEIRO
        invariant
            linha <= 6,
            g == tabuleiro@,
            maos.jogador1.ativas != PECAS_POR_JOGADOR && maos.jogador2.ativas != PECAS_POR_JOGADOR,
            primeiro_trio_de_gatoes(g, (24 * linha) as nat) is None,
        decreases 6 - linha,
    {
        let mut coluna: usize = 0;
        while coluna < TAMANHO_TABULEIRO
            invariant
                linha < 6,
                coluna <= 6,
                g == tabuleiro@,
                maos.jogador1.ativas != PECAS_POR_JOGADOR && maos.jogador2.ativas
                    != PECAS_POR_JOGADOR,
                primeiro_trio_de_gatoes(g, (24 * linha + 4 * coluna) as nat) is None,
            decreases 6 - coluna,
        {
            let celula = tabuleiro.get(linha, coluna);
            let mut d: usize = 0;
            while d < 4
                invariant
                    linha < 6,
                    coluna < 6,
                    d <= 4,
                    g == tabuleiro@,
                    maos.jogador1.ativas != PECAS_POR_JOGADOR && maos.jogador2.ativas
                        != PECAS_POR_JOGADOR,
                    celula == casa(g, linha as int, coluna as int),
                    primeiro_trio_de_gatoes(g, (24 * linha + 4 * coluna + d) as nat) is None,
                decreases 4 - d,
            {
                proof {
                    lemma_candidato(linha as int, coluna as int, d as int);
                }
                if let Some(gato1) = celula {
                    if gato1.peca == Peca::Gatao {
                        let direcao = DIRECOES_LINHA[d];
                        if let Some((l1, c1)) = deslocar(linha, coluna, direcao) {
                            if let Some((l2, c2)) = deslocar(l1, c1, direcao) {
                                // Trio so vale com tres gatoes do mesmo dono.
                                if let (Some(gato2), Some(gato3)) = (
                                    tabuleiro.get(l1, c1),
                                    tabuleiro.get(l2, c2),
                                ) {
                                    if gato2.peca == Peca::Gatao && gato3.peca == Peca::Gatao
                                        && gato1.dono == gato2.dono && gato2.dono == gato3.dono {
                                        proof {
                                            let k = 24 * linha + 4 * coluna + d;
                                            assert(trio_de_gatoes(g, k) == Some(gato1.dono));
                                            lemma_primeiro_estavel(g, (k + 1) as nat, 144);
                                        }
                                        return Some(gato1.dono);
                                    }
                                }
                            }
                        }
                    }
                }
                d += 1;
            }
            coluna += 1;
        }
        linha += 1;
    }
    None
}

/// `true` se nenhum dos jogadores tem pecas na mao para jogar.
pub fn verificar_empate(maos: &Maos) -> (r: bool)
    ensures
        r == empate(*maos),
{
    maos.ver(Jogador::Um).sem_pecas() && maos.ver(Jogador::Dois).sem_pecas()
}

/// Avalia o estado da partida: vitoria, empate ou jogo em andamento.
///
/// Vitoria tem prioridade sobre empate.
pub fn estado_do_jogo(tabuleiro: &Tabuleiro, maos: &Maos) -> (r: Option<FimDeJogo>)
    ensures
        r == estado(tabuleiro@, *maos),
{
    if let Some(vencedor) = verifica_vitoria(tabuleiro, maos) {
        Some(FimDeJogo::Vitoria(vencedor))
    } else if verificar_empate(maos) {
        Some(FimDeJogo::Empate)
    } else {
        None
    }
}

/// A casa `(linha, coluna)` existe e tem um gatao de `dono`.
pub open spec fn gatao_de(g: Seq<Celula>, linha: int, coluna: int, dono: Jogador) -> bool {
    na_grade(linha, coluna) && casa(g, linha, coluna) == Some(Gato { peca: Peca::Gatao, dono })
}

/// Tres gatoes do mesmo dono em casas consecutivas, em qualquer uma das 8
/// direcoes (inclusive encostados na borda), dao a vitoria a algum jogador.
pub proof fn trio_de_gatoes_vence(
    g: Seq<Celula>,
    maos: Maos,
    linha: int,
    coluna: int,
    direcao: (int, int),
    dono: Jogador,
)
    requires
        g.len() == 36,
        direcao_unitaria(direcao),
        gatao_de(g, linha, coluna, dono),
        gatao_de(g, linha + direcao.0, coluna + direcao.1, dono),
        gatao_de(g, linha + 2 * direcao.0, coluna + 2 * direcao.1, dono),
    ensures
        vencedor(g, maos) is Some,
{
    // O trio e varrido a partir de uma das pontas, na direcao de
    // `DIRECOES_LINHA` que aponta para a outra.
    let (inicio_linha, inicio_coluna, d) = if direcao == (0int, 1int) {
        (linha, coluna, 0int)
    } else if direcao == (1int, 0int) {
        (linha, coluna, 1int)
    } else if direcao == (1int, 1int) {
        (linha, coluna, 2int)
    } else if direcao == (-1int, 1int) {
        (linha, coluna, 3int)
    } else if direcao == (0int, -1int) {
        (linha, coluna - 2, 0int)
    } else if direcao == (-1int, 0int) {
        (linha - 2, coluna, 1int)
    } else if direcao == (-1int, -1int) {
        (linha - 2, coluna - 2, 2int)
    } else {
        (linha + 2, coluna - 2, 3int)
    };
    lemma_candidato(inicio_linha, inicio_coluna, d);
    let k = 24 * inicio_linha + 4 * inicio_coluna + d;
    assert(trio_de_gatoes(g, k) == Some(dono));
    lemma_primeiro_estavel(g, (k + 1) as nat, 144);
}

/// O primeiro trio da varredura vem de um candidato com trio de gatoes.
proof fn lemma_primeiro_tem_candidato(g: Seq<Celula>, k: nat)
    ensures
        primeiro_trio_de_gatoes(g, k) matches Some(dono) ==> exists|j: int|
            0 <= j < k && #[trigger] trio_de_gatoes(g, j) == Some(dono),
    decreases k,
{
    if k > 0 {
        lemma_primeiro_tem_candidato(g, (k - 1) as nat);
    }
}

/// Um vencedor so e declarado com cama cheia ou com tres gatoes seus em
/// casas consecutivas, em uma das 8 direcoes.
pub proof fn vencedor_tem_motivo(g: Seq<Celula>, maos: Maos)
    ensures
        vencedor(g, maos) matches Some(dono) ==> maos.mao(dono).ativas == PECAS_POR_JOGADOR
            || exists|linha: int, coluna: int, direcao: (int, int)|
            #![trigger gatao_de(g, linha, coluna, dono), gatao_de(g, linha + direcao.0, coluna + direcao.1, dono)]
            direcao_unitaria(direcao) && gatao_de(g, linha, coluna, dono) && gatao_de(
                g,
                linha + direcao.0,
                coluna + direcao.1,
                dono,
            ) && gatao_de(g, linha + 2 * direcao.0, coluna + 2 * direcao.1, dono),
{
    lemma_primeiro_tem_candidato(g, 144);
    if let Some(dono) = vencedor(g, maos) {
        if maos.mao(dono).ativas != PECAS_POR_JOGADOR {
            assert(maos.jogador1.ativas != PECAS_POR_JOGADOR);
            assert(maos.jogador2.ativas != PECAS_POR_JOGADOR);
            let j = choose|j: int| 0 <= j < 144 && #[trigger] trio_de_gatoes(g, j) == Some(dono);
            lemma_candidato_na_grade(j);
            let (linha, coluna, d) = candidato(j);
            let direcao = (d.0 as int, d.1 as int);
            assert(direcao_unitaria(direcao));
            assert(gatao_de(g, linha, coluna, dono));
            assert(gatao_de(g, linha + direcao.0, coluna + direcao.1, dono));
            assert(gatao_de(g, linha + 2 * direcao.0, coluna + 2 * direcao.1, dono));
        }
    }
}

/// Cama cheia vence qualquer que seja a grade: com as 8 pecas do jogador 1 no
/// tabuleiro ele vence; senao, com as 8 do jogador 2 no tabuleiro, vence o
/// jogador 2. O fim de jogo e entao essa vitoria, e nao empate.
pub proof fn cama_cheia_vence(g: Seq<Celula>, maos: Maos)
    ensures
        maos.jogador1.ativas == 8 ==> vencedor(g, maos) == Some(Jogador::Um),
        maos.jogador1.ativas != 8 && maos.jogador2.ativas == 8 ==> vencedor(g, maos) == Some(
            Jogador::Dois,
        ),
        maos.jogador1.ativas == 8 ==> estado(g, maos) == Some(FimDeJogo::Vitoria(Jogador::Um)),
        maos.jogador1.ativas != 8 && maos.jogador2.ativas == 8 ==> estado(g, maos) == Some(
            FimDeJogo::Vitoria(Jogador::Dois),
        ),
{
}

/// A partida termina com vitoria exatamente quando ha vencedor, e empata
/// exatamente quando nao ha vencedor e nenhum dos dois jogadores tem peca na
/// mao; senao segue.
pub proof fn fim_de_jogo_exato(g: Seq<Celula>, maos: Maos)
    ensures
        estado(g, maos) == Some(FimDeJogo::Vitoria(Jogador::Um)) <==> vencedor(g, maos) == Some(
            Jogador::Um,
        ),
        estado(g, maos) == Some(FimDeJogo::Vitoria(Jogador::Dois)) <==> vencedor(g, maos) == Some(
            Jogador::Dois,
        ),
        estado(g, maos) == Some(FimDeJogo::Empate) <==> vencedor(g, maos) is None
            && maos.jogador1.gatinhos == 0 && maos.jogador1.gatoes == 0 && maos.jogador2.gatinhos
            == 0 && maos.jogador2.gatoes == 0,
        estado(g, maos) is None <==> vencedor(g, maos) is None && (maos.jogador1.gatinhos > 0
            || maos.jogador1.gatoes > 0 || maos.jogador2.gatinhos > 0 || maos.jogador2.gatoes > 0),
{
}

} // verus!
