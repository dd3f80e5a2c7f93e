//! Interpretacao do texto digitado pelo jogador como uma [`Jogada`].
use vstd::prelude::*;

use crate::model::jogada::Jogada;
use crate::model::tipos::{
    peca_do_char, simbolo_de, simbolo_e_do_char_sao_inversos, Peca, TAMANHO_TABULEIRO,
};

verus! {

/// Motivo pelo qual a entrada digitada nao pode ser interpretada.
#[derive(Debug, Clone, Copy, PartialEq, Eq, Structural)]
pub enum EntradaInvalida {
    Formato,
    TipoPeca,
    Linha,
    Coluna,
}

impl EntradaInvalida {
    /// Mensagem mostrada ao jogador.
    pub fn mensagem(&self) -> (r: &'static str)
        ensures
            r == (match *self {
                EntradaInvalida::Formato => "Formato inválido! Use: tipo linha coluna (ex: g 1 A).",
                EntradaInvalida::TipoPeca => "Tipo de peça inválido! Use 'g' para gatinho ou 'G' para gatão.",
                EntradaInvalida::Linha => "Linha inválida! Use um número de 1 a 6.",
                EntradaInvalida::Coluna => "Coluna inválida! Use uma letra de A a F.",
            }),
    {
        match self {
            EntradaInvalida::Formato => "Formato inválido! Use: tipo linha coluna (ex: g 1 A).",
            EntradaInvalida::TipoPeca => "Tipo de peça inválido! Use 'g' para gatinho ou 'G' para gatão.",
            EntradaInvalida::Linha => "Linha inválida! Use um número de 1 a 6.",
            EntradaInvalida::Coluna => "Coluna inválida! Use uma letra de A a F.",
        }
    }
}

/// Caracteres de espaco em branco do Unicode (propriedade `White_Space`).
pub open spec fn espaco(c: char) -> bool {
    ('\u{9}' <= c && c <= '\u{d}') || c == ' ' || c == '\u{85}' || c == '\u{a0}' || c
        == '\u{1680}' || ('\u{2000}' <= c && c <= '\u{200a}') || c == '\u{2028}' || c
        == '\u{2029}' || c == '\u{202f}' || c == '\u{205f}' || c == '\u{3000}'
}

/// Campos ja fechados e campo em andamento depois de ler os `n` primeiros
/// caracteres de `s`: um campo e uma sequencia de caracteres que nao sao
/// espaco, e os espacos so separam campos.
pub open spec fn campos_ate(s: Seq<char>, n: nat) -> (Seq<Seq<char>>, Seq<char>)
    decreases n,
{
    if n == 0 {
        (Seq::empty(), Seq::empty())
    } else {
        let (fechados, atual) = campos_ate(s, (n - 1) as nat);
        let c = s[n - 1];
        if espaco(c) {
            if atual.len() > 0 {
                (fechados.push(atual), Seq::empty())
            } else {
                (fechados, atual)
            }
        } else {
            (fechados, atual.push(c))
        }
    }
}

/// Os campos de `s`, separados por qualquer sequencia de espacos em branco.
pub open spec fn campos(s: Seq<char>) -> Seq<Seq<char>> {
    let (fechados, atual) = campos_ate(s, s.len());
    if atual.len() > 0 {
        fechados.push(atual)
    } else {
        fechados
    }
}

/// `true` se `c` e um digito decimal.
pub open spec fn digito(c: char) -> bool {
    '0' <= c && c <= '9'
}

/// `true` se `s` nao e vazia e so tem digitos decimais.
pub open spec fn so_digitos(s: Seq<char>) -> bool {
    s.len() > 0 && forall|i: int| 0 <= i < s.len() ==> digito(#[trigger] s[i])
}

/// Valor decimal dos digitos de `s`.
pub open spec fn valor_decimal(s: Seq<char>) -> int
    decreases s.len(),
{
    if s.len() == 0 {
        0
    } else {
        valor_decimal(s.drop_last()) * 10 + (s.last() as int - '0' as int)
    }
}

/// Numero escrito em `s`: sinal opcional (`+` ou `-`) seguido de digitos.
pub open spec fn numero(s: Seq<char>) -> Option<int> {
    if so_digitos(s) {
        Some(valor_decimal(s))
    } else if s.len() > 0 && s[0] == '+' && so_digitos(s.drop_first()) {
        Some(valor_decimal(s.drop_first()))
    } else if s.len() > 0 && s[0] == '-' && so_digitos(s.drop_first()) {
        Some(-valor_decimal(s.drop_first()))
    } else {
        None
    }
}

/// Indice base 0 da linha escrita em `s`: um numero de 1 a 6.
pub open spec fn linha_de(s: Seq<char>) -> Option<int> {
    match numero(s) {
        Some(v) => if 1 <= v <= TAMANHO_TABULEIRO {
            Some(v - 1)
        } else {
            None
        },
        None => None,
    }
}

/// Indice base 0 da coluna escrita em `s`: uma unica letra de A a F,
/// maiuscula ou minuscula.
pub open spec fn coluna_de(s: Seq<char>) -> Option<int> {
    if s.len() != 1 {
        None
    } else if 'A' <= s[0] && s[0] <= 'F' {
        Some(s[0] as int - 'A' as int)
    } else if 'a' <= s[0] && s[0] <= 'f' {
        Some(s[0] as int - 'a' as int)
    } else {
        None
    }
}

/// Jogada descrita pelo texto `s` no formato `tipo linha coluna`, ou o
/// primeiro problema encontrado: numero de campos, tipo da peca, linha e
/// coluna, nessa ordem.
pub open spec fn interpretacao(s: Seq<char>) -> Result<Jogada, EntradaInvalida> {
    let cs = campos(s);
    if cs.len() != 3 {
        Err(EntradaInvalida::Formato)
    } else if cs[0].len() != 1 || peca_do_char(cs[0][0]) is None {
        Err(EntradaInvalida::TipoPeca)
    } else if linha_de(cs[1]) is None {
        Err(EntradaInvalida::Linha)
    } else if coluna_de(cs[2]) is None {
        Err(EntradaInvalida::Coluna)
    } else {
        Ok(
            Jogada {
                peca: peca_do_char(cs[0][0]).unwrap(),
                linha: linha_de(cs[1]).unwrap() as usize,
                coluna: coluna_de(cs[2]).unwrap() as usize,
            },
        )
    }
}

/// `true` se `c` e espaco em branco.
fn e_espaco(c: char) -> (r: bool)
    ensures
        r == espaco(c),
{
    ('\u{9}' <= c && c <= '\u{d}') || c == ' ' || c == '\u{85}' || c == '\u{a0}' || c
        == '\u{1680}' || ('\u{2000}' <= c && c <= '\u{200a}') || c == '\u{2028}' || c
        == '\u{2029}' || c == '\u{202f}' || c == '\u{205f}' || c == '\u{3000}'
}

/// Separa `entrada` em campos delimitados por espacos em branco.
fn separar_campos(entrada: &str) -> (r: Vec<Vec<char>>)
    ensures
        r@.map_values(|c: Vec<char>| c@) == campos(entrada@),
{
    let n = entrada.unicode_len();
    let mut fechados: Vec<Vec<char>> = Vec::new();
    let mut atual: Vec<char> = Vec::new();
    let mut i: usize = 0;
    while i < n
        invariant
            i <= n == entrada@.len(),
            fechados@.map_values(|c: Vec<char>| c@) == campos_ate(entrada@, i as nat).0,
            atual@ == campos_ate(entrada@, i as nat).1,
        decreases n - i,
    {
        let c = entrada.get_char(i);
        let ghost antes = fechados@;
        if e_espaco(c) {
            if atual.len() > 0 {
                let pronto = atual;
                fechados.push(pronto);
                atual = Vec::new();
                assert(fechados@.map_values(|c: Vec<char>| c@) =~= antes.map_values(
                    |c: Vec<char>| c@,
                ).push(pronto@));
            }
        } else {
            atual.push(c);
        }
        i += 1;
    }
    let ghost antes = fechados@;
    if atual.len() > 0 {
        let pronto = atual;
        fechados.push(pronto);
        assert(fechados@.map_values(|c: Vec<char>| c@) =~= antes.map_values(|c: Vec<char>| c@).push(
            pronto@,
        ));
    }
    fechados
}

/// Le os digitos de `s` a partir de `inicio`: `None` se nao ha digito ou ha
/// outro caractere; senao o valor, limitado a 7 (qualquer valor acima de 6
/// ja e uma linha invalida).
fn valor_limitado(s: &Vec<char>, inicio: usize) -> (r: Option<u32>)
    requires
        inicio <= s@.len(),
    ensures
        match r {
            Some(v) => so_digitos(s@.subrange(inicio as int, s@.len() as int)) && v == if valor_decimal(
                s@.subrange(inicio as int, s@.len() as int),
            ) > 7 {
                7
            } else {
                valor_decimal(s@.subrange(inicio as int, s@.len() as int))
            },
            None => !so_digitos(s@.subrange(inicio as int, s@.len() as int)),
        },
{
    if inicio >= s.len() {
        return None;
    }
    let mut v: u32 = 0;
    let mut i: usize = inicio;
    while i < s.len()
        invariant
            inicio <= i <= s@.len(),
            forall|j: int| inicio <= j < i ==> digito(#[trigger] s@[j]),
            valor_decimal(s@.subrange(inicio as int, i as int)) >= 0,
            v == if valor_decimal(s@.subrange(inicio as int, i as int)) > 7 {
                7
            } else {
                valor_decimal(s@.subrange(inicio as int, i as int))
            },
        decreases s@.len() - i,
    {
        let c = s[i];
        if !('0' <= c && c <= '9') {
            assert(s@.subrange(inicio as int, s@.len() as int)[i - inicio] == c);
            return None;
        }
        let d = (c as u32) - ('0' as u32);
        assert(s@.subrange(inicio as int, i + 1).drop_last() =~= s@.subrange(inicio as int, i as int));
        if v < 7 {
            v = v * 10 + d;
            if v > 7 {
                v = 7;
            }
        }
        i += 1;
    }
    assert forall|j: int| 0 <= j < s@.subrange(inicio as int, s@.len() as int).len() implies digito(
        #[trigger] s@.subrange(inicio as int, s@.len() as int)[j],
    ) by {
        assert(digito(s@[inicio + j]));
    }
    Some(v)
}

/// Interpreta uma linha digitada no formato `g 1 A`.
pub fn parse_jogada(entrada: &str) -> (r: Result<Jogada, EntradaInvalida>)
    ensures
        r == interpretacao(entrada@),
{
    // Separa por qualquer sequencia de espacos em branco (cobre espacos
    // extras e o \r\n do fim de linha no Windows).
    let campos = separar_campos(entrada);
    if campos.len() != 3 {
        return Err(EntradaInvalida::Formato);
    }
    let ghost cs = campos@.map_values(|c: Vec<char>| c@);
    assert(cs[0] == campos@[0]@ && cs[1] == campos@[1]@ && cs[2] == campos@[2]@);

    // Campo 1: tipo da peca, exatamente um caractere.
    if campos[0].len() != 1 {
        return Err(EntradaInvalida::TipoPeca);
    }
    let peca = match Peca::do_char(campos[0][0]) {
        Some(peca) => peca,
        None => return Err(EntradaInvalida::TipoPeca),
    };

    // Campo 2: linha de 1 a 6, convertida para indice base 0.
    let campo_linha = &campos[1];
    let numero_linha: u32 = if campo_linha.len() > 0 && campo_linha[0] == '-' {
        // Numeros negativos nunca sao linhas validas.
        match valor_limitado(campo_linha, 1) {
            Some(_) => {
                assert(campo_linha@.subrange(1, campo_linha@.len() as int) =~= campo_linha@.drop_first());
                return Err(EntradaInvalida::Linha);
            },
            None => {
                assert(campo_linha@.subrange(1, campo_linha@.len() as int) =~= campo_linha@.drop_first());
                assert(!digito('-'));
                return Err(EntradaInvalida::Linha);
            },
        }
    } else if campo_linha.len() > 0 && campo_linha[0] == '+' {
        assert(campo_linha@.subrange(1, campo_linha@.len() as int) =~= campo_linha@.drop_first());
        assert(!digito('+'));
        match valor_limitado(campo_linha, 1) {
            Some(v) => v,
            None => return Err(EntradaInvalida::Linha),
        }
    } else {
        assert(campo_linha@.subrange(0, campo_linha@.len() as int) =~= campo_linha@);
        match valor_limitado(campo_linha, 0) {
            Some(v) => v,
            None => return Err(EntradaInvalida::Linha),
        }
    };
    if numero_linha < 1 || numero_linha > TAMANHO_TABULEIRO as u32 {
        return Err(EntradaInvalida::Linha);
    }
    let linha = (numero_linha - 1) as usize;

    // Campo 3: coluna de A a F (maiuscula ou minuscula), convertida para
    // indice base 0.
    let campo_coluna = &campos[2];
    if campo_coluna.len() != 1 {
        return Err(EntradaInvalida::Coluna);
    }
    let c = campo_coluna[0];
    let coluna = if 'A' <= c && c <= 'F' {
        ((c as u32) - ('A' as u32)) as usize
    } else if 'a' <= c && c <= 'f' {
        ((c as u32) - ('a' as u32)) as usize
    } else {
        return Err(EntradaInvalida::Coluna);
    };

    Ok(Jogada { peca, linha, coluna })
}

/// Texto de `jogada` no formato `tipo linha coluna`: o simbolo da peca, a
/// linha de 1 a 6 e a letra da coluna (maiuscula ou minuscula, conforme
/// `maiuscula`), separados por um espaco.
pub open spec fn texto_da_jogada(jogada: Jogada, maiuscula: bool) -> Seq<char> {
    let primeira_letra = if maiuscula {
        'A'
    } else {
        'a'
    };
    seq![
        simbolo_de(jogada.peca),
        ' ',
        ('1' as int + jogada.linha) as char,
        ' ',
        (primeira_letra as int + jogada.coluna) as char,
    ]
}

/// Toda jogada dentro do tabuleiro, escrita no formato `tipo linha coluna`,
/// e lida de volta como a mesma jogada, com a coluna em maiuscula ou em
/// minuscula.
pub proof fn jogada_escrita_e_lida_de_volta(jogada: Jogada, maiuscula: bool)
    requires
        jogada.linha < TAMANHO_TABULEIRO,
        jogada.coluna < TAMANHO_TABULEIRO,
    ensures
        interpretacao(texto_da_jogada(jogada, maiuscula)) == Ok::<Jogada, EntradaInvalida>(jogada),
{
    let s = texto_da_jogada(jogada, maiuscula);
    let p = s[0];
    let d = s[2];
    let l = s[4];
    simbolo_e_do_char_sao_inversos(jogada.peca, p);
    assert(!espaco(p) && espaco(s[1]) && !espaco(d) && espaco(s[3]) && !espaco(l));
    assert(campos_ate(s, 0) == (Seq::<Seq<char>>::empty(), Seq::<char>::empty()));
    assert(campos_ate(s, 1).0 =~= Seq::<Seq<char>>::empty());
    assert(campos_ate(s, 1).1 =~= seq![p]);
    assert(campos_ate(s, 2).0 =~~= seq![seq![p]]);
    assert(campos_ate(s, 2).1 =~= Seq::<char>::empty());
    assert(campos_ate(s, 3).0 =~~= seq![seq![p]]);
    assert(campos_ate(s, 3).1 =~= seq![d]);
    assert(campos_ate(s, 4).0 =~~= seq![seq![p], seq![d]]);
    assert(campos_ate(s, 4).1 =~= Seq::<char>::empty());
    assert(campos_ate(s, 5).0 =~~= seq![seq![p], seq![d]]);
    assert(campos_ate(s, 5).1 =~= seq![l]);
    assert(campos(s) =~~= seq![seq![p], seq![d], seq![l]]);
    assert(seq![d].drop_last() =~= Seq::<char>::empty());
    assert(so_digitos(seq![d]));
    assert(d as int == '1' as int + jogada.linha);
    assert(valor_decimal(Seq::<char>::empty()) == 0);
    assert(seq![d].last() == d);
    assert(valor_decimal(seq![d]) == jogada.linha + 1);
}

} // verus!
