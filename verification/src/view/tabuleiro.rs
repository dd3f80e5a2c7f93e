//! Desenho do tabuleiro em texto.
use vstd::prelude::*;
use vstd::seq_lib::lemma_concat_associative;

use crate::model::tipos::{
    casa, tabuleiro_tem_36_casas, Celula, Jogador, Peca, Tabuleiro, AZUL, RESET,
    TAMANHO_TABULEIRO, VERMELHO,
};

verus! {

broadcast use tabuleiro_tem_36_casas;

/// Cabecalho com os rotulos das colunas.
pub const CABECALHO: &'static str = "      A          B          C          D          E          F\n";

/// Rotulo de cada linha, seguido da primeira borda.
pub const ROTULOS_LINHAS: [&'static str; 6] = ["1|", "2|", "3|", "4|", "5|", "6|"];

/// Desenho do gatinho.
pub const GLIFO_GATINHO: &'static str = "≽^-˕-^≼   ";

/// Desenho do gatao.
pub const GLIFO_GATAO: &'static str = "/ᐠ - ˕ -マ";

/// Desenho de uma casa vazia.
pub const CASA_VAZIA: &'static str = "          ";

/// Texto de uma casa: o gato na cor do dono, ou espacos.
pub open spec fn desenho_celula(celula: Celula) -> Seq<char> {
    match celula {
        Some(gato) => (match gato.dono {
            Jogador::Um => VERMELHO@,
            Jogador::Dois => AZUL@,
        }) + (match gato.peca {
            Peca::Gatinho => GLIFO_GATINHO@,
            Peca::Gatao => GLIFO_GATAO@,
        }) + RESET@,
        None => CASA_VAZIA@,
    }
}

/// Texto da linha `linha` ate a coluna `n`: o rotulo e cada casa seguida de
/// uma borda.
pub open spec fn desenho_colunas(g: Seq<Celula>, linha: int, n: nat) -> Seq<char>
    decreases n,
{
    if n == 0 {
        ROTULOS_LINHAS@[linha]@
    } else {
        desenho_colunas(g, linha, (n - 1) as nat) + desenho_celula(casa(g, linha, n - 1)) + "|"@
    }
}

/// Texto do cabecalho e das `n` primeiras linhas, cada uma terminada por uma
/// quebra de linha.
pub open spec fn desenho_linhas(g: Seq<Celula>, n: nat) -> Seq<char>
    decreases n,
{
    if n == 0 {
        CABECALHO@
    } else {
        desenho_linhas(g, (n - 1) as nat) + desenho_colunas(g, n - 1, 6) + "\n"@
    }
}

/// Texto do tabuleiro inteiro.
pub open spec fn desenho(g: Seq<Celula>) -> Seq<char> {
    desenho_linhas(g, 6)
}

/// Renderiza o tabuleiro em texto.
pub fn render_tabuleiro(tabuleiro: &Tabuleiro) -> (r: String)
    ensures
        r@ == desenho(tabuleiro@),
{
    let mut output = String::new();

    // Cabecalho com rotulos das colunas
    output.append(CABECALHO);

    // Cada linha do tabuleiro
    let mut linha: usize = 0;
    while linha < TAMANHO_TABULEIRO
        invariant
            linha <= 6,
            output@ == desenho_linhas(tabuleiro@, linha as nat),
        decreases 6 - linha,
    {
        let ghost antes = output@;
        output.append(ROTULOS_LINHAS[linha]);

        let mut coluna: usize = 0;
        while coluna < TAMANHO_TABULEIRO
            invariant
                linha < 6,
                coluna <= 6,
                output@ == antes + desenho_colunas(tabuleiro@, linha as int, coluna as nat),
            decreases 6 - coluna,
        {
            let ghost antes_da_casa = output@;
            let celula = tabuleiro.get(linha, coluna);
            if let Some(gato) = celula {
                output.append(gato.dono.cor());
                match gato.peca {
                    Peca::Gatinho => output.append(GLIFO_GATINHO),
                    Peca::Gatao => output.append(GLIFO_GATAO),
                }
                output.append(RESET);
            } else {
                output.append(CASA_VAZIA);
            }
            output.append("|");
            proof {
                assert(output@ =~= antes_da_casa + desenho_celula(celula) + "|"@);
            }
            coluna += 1;
        }
        output.append("\n");
        linha += 1;
    }
    output
}

/// Texto da casa `(linha, coluna)` seguido da sua borda.
pub open spec fn casa_com_borda(g: Seq<Celula>, linha: int, coluna: int) -> Seq<char> {
    desenho_celula(casa(g, linha, coluna)) + "|"@
}

/// Texto da linha `linha` do tabuleiro: o rotulo, as seis casas dessa linha da
/// coluna A a coluna F, e a quebra de linha.
pub open spec fn linha_de_texto(g: Seq<Celula>, linha: int) -> Seq<char> {
    ROTULOS_LINHAS@[linha]@ + casa_com_borda(g, linha, 0) + casa_com_borda(g, linha, 1)
        + casa_com_borda(g, linha, 2) + casa_com_borda(g, linha, 3) + casa_com_borda(g, linha, 4)
        + casa_com_borda(g, linha, 5) + "\n"@
}

/// A linha `linha` do desenho, com a sua quebra, e `linha_de_texto`.
proof fn lemma_linha_de_texto(g: Seq<Celula>, linha: int)
    requires
        0 <= linha < 6,
    ensures
        desenho_colunas(g, linha, 6) + "\n"@ == linha_de_texto(g, linha),
{
    let rotulo = ROTULOS_LINHAS@[linha]@;
    assert(desenho_colunas(g, linha, 0) == rotulo);
    lemma_concat_associative(
        desenho_colunas(g, linha, 0),
        desenho_celula(casa(g, linha, 0)),
        "|"@,
    );
    lemma_concat_associative(
        desenho_colunas(g, linha, 1),
        desenho_celula(casa(g, linha, 1)),
        "|"@,
    );
    lemma_concat_associative(
        desenho_colunas(g, linha, 2),
        desenho_celula(casa(g, linha, 2)),
        "|"@,
    );
    lemma_concat_associative(
        desenho_colunas(g, linha, 3),
        desenho_celula(casa(g, linha, 3)),
        "|"@,
    );
    lemma_concat_associative(
        desenho_colunas(g, linha, 4),
        desenho_celula(casa(g, linha, 4)),
        "|"@,
    );
    lemma_concat_associative(
        desenho_colunas(g, linha, 5),
        desenho_celula(casa(g, linha, 5)),
        "|"@,
    );
    assert(desenho_colunas(g, linha, 6) == rotulo + casa_com_borda(g, linha, 0) + casa_com_borda(
        g,
        linha,
        1,
    ) + casa_com_borda(g, linha, 2) + casa_com_borda(g, linha, 3) + casa_com_borda(g, linha, 4)
        + casa_com_borda(g, linha, 5));
}

/// O desenho e o cabecalho seguido das linhas 1 a 6, nessa ordem; a linha de
/// rotulo `linha + 1` mostra, da coluna A a F, as casas `(linha, 0)` a
/// `(linha, 5)` da grade.
pub proof fn desenho_casa_a_casa(g: Seq<Celula>)
    ensures
        desenho(g) == CABECALHO@ + linha_de_texto(g, 0) + linha_de_texto(g, 1) + linha_de_texto(
            g,
            2,
        ) + linha_de_texto(g, 3) + linha_de_texto(g, 4) + linha_de_texto(g, 5),
        forall|linha: int|
            0 <= linha < 6 ==> #[trigger] ROTULOS_LINHAS@[linha]@ == seq![
                ('1' as int + linha) as char,
                '|',
            ],
{
    assert(desenho_linhas(g, 0) == CABECALHO@);
    lemma_linha_de_texto(g, 0);
    lemma_concat_associative(desenho_linhas(g, 0), desenho_colunas(g, 0, 6), "\n"@);
    lemma_linha_de_texto(g, 1);
    lemma_concat_associative(desenho_linhas(g, 1), desenho_colunas(g, 1, 6), "\n"@);
    lemma_linha_de_texto(g, 2);
    lemma_concat_associative(desenho_linhas(g, 2), desenho_colunas(g, 2, 6), "\n"@);
    lemma_linha_de_texto(g, 3);
    lemma_concat_associative(desenho_linhas(g, 3), desenho_colunas(g, 3, 6), "\n"@);
    lemma_linha_de_texto(g, 4);
    lemma_concat_associative(desenho_linhas(g, 4), desenho_colunas(g, 4, 6), "\n"@);
    lemma_linha_de_texto(g, 5);
    lemma_concat_associative(desenho_linhas(g, 5), desenho_colunas(g, 5, 6), "\n"@);
    assert(desenho_linhas(g, 6) == CABECALHO@ + linha_de_texto(g, 0) + linha_de_texto(g, 1)
        + linha_de_texto(g, 2) + linha_de_texto(g, 3) + linha_de_texto(g, 4) + linha_de_texto(g, 5));
    reveal_strlit("1|");
    reveal_strlit("2|");
    reveal_strlit("3|");
    reveal_strlit("4|");
    reveal_strlit("5|");
    reveal_strlit("6|");
    assert forall|linha: int| 0 <= linha < 6 implies #[trigger] ROTULOS_LINHAS@[linha]@ == seq![
        ('1' as int + linha) as char,
        '|',
    ] by {
        assert(ROTULOS_LINHAS@[linha]@ =~= seq![('1' as int + linha) as char, '|']);
    }
}

} // verus!
