//! Tipos centrais do jogo: pecas, jogadores, tabuleiro e maos.
//!
//! Uma casa do tabuleiro e um `Option<Gato>`: a peca e o dono andam juntos,
//! entao nao existe casa com peca sem dono.
use vstd::prelude::*;

verus! {

/// Lado do tabuleiro (6x6).
pub const TAMANHO_TABULEIRO: usize = 6;

/// Cada jogador possui 8 pecas no total, somando mao e tabuleiro.
pub const PECAS_POR_JOGADOR: u8 = 8;

/// Quantas pecas alinhadas formam um trio.
pub const TAMANHO_TRIO: usize = 3;

/// Cor ANSI do jogador 1.
pub const VERMELHO: &'static str = "\x1b[1;31m";

/// Cor ANSI do jogador 2.
pub const AZUL: &'static str = "\x1b[1;34m";

/// Cor ANSI da arte de abertura.
pub const AMARELO: &'static str = "\x1b[1;33m";

/// Volta a cor padrao do terminal.
pub const RESET: &'static str = "\x1b[0m";

/// As 8 direcoes do boop.
pub const DIRECOES_BOOP: [(isize, isize); 8] = [
    (0, 1),
    (0, -1),
    (1, 0),
    (-1, 0),
    (-1, -1),
    (-1, 1),
    (1, -1),
    (1, 1),
];

/// As 4 direcoes usadas para varrer alinhamentos (as outras 4 sao redundantes).
pub const DIRECOES_LINHA: [(isize, isize); 4] = [(0, 1), (1, 0), (1, 1), (-1, 1)];

/// Tipo da peca: gatinho (`g`) ou gatao (`G`).
#[derive(Debug, Clone, Copy, PartialEq, Eq, Hash, Structural)]
pub enum Peca {
    Gatinho,
    Gatao,
}

/// Caractere de uma peca na entrada e na exibicao textual.
pub open spec fn simbolo_de(peca: Peca) -> char {
    match peca {
        Peca::Gatinho => 'g',
        Peca::Gatao => 'G',
    }
}

/// Peca digitada com o caractere `c`, se houver.
pub open spec fn peca_do_char(c: char) -> Option<Peca> {
    if c == 'g' {
        Some(Peca::Gatinho)
    } else if c == 'G' {
        Some(Peca::Gatao)
    } else {
        None
    }
}

impl Peca {
    /// Caractere usado na entrada e na exibicao textual.
    pub fn simbolo(self) -> (c: char)
        ensures
            c == simbolo_de(self),
    {
        match self {
            Peca::Gatinho => 'g',
            Peca::Gatao => 'G',
        }
    }

    /// Nome da peca na interface.
    pub fn nome(self) -> (r: &'static str)
        ensures
            r == (match self {
                Peca::Gatinho => "gatinho",
                Peca::Gatao => "gatao",
            }),
    {
        match self {
            Peca::Gatinho => "gatinho",
            Peca::Gatao => "gatao",
        }
    }

    /// Converte o caractere digitado pelo jogador. `None` se nao for `g` nem `G`.
    pub fn do_char(c: char) -> (r: Option<Peca>)
        ensures
            r == peca_do_char(c),
    {
        if c == 'g' {
            Some(Peca::Gatinho)
        } else if c == 'G' {
            Some(Peca::Gatao)
        } else {
            None
        }
    }
}

/// O simbolo de uma peca, lido de volta, da a mesma peca; e nenhum outro
/// caractere da essa peca.
pub proof fn simbolo_e_do_char_sao_inversos(peca: Peca, c: char)
    ensures
        peca_do_char(simbolo_de(peca)) == Some(peca),
        peca_do_char(c) == Some(peca) ==> c == simbolo_de(peca),
{
}

/// Dono de uma peca.
#[derive(Debug, Clone, Copy, PartialEq, Eq, Hash, Structural)]
pub enum Jogador {
    Um,
    Dois,
}

/// O outro jogador.
pub open spec fn oponente_de(jogador: Jogador) -> Jogador {
    match jogador {
        Jogador::Um => Jogador::Dois,
        Jogador::Dois => Jogador::Um,
    }
}

/// Jogador da vez no turno `turno` (o turno 0 e do jogador 1).
pub open spec fn jogador_da_vez(turno: int) -> Jogador {
    if turno % 2 == 0 {
        Jogador::Um
    } else {
        Jogador::Dois
    }
}

impl Jogador {
    /// Cor ANSI associada ao jogador (vermelho para o 1, azul para o 2).
    pub fn cor(self) -> (r: &'static str)
        ensures
            r == (match self {
                Jogador::Um => VERMELHO,
                Jogador::Dois => AZUL,
            }),
    {
        match self {
            Jogador::Um => VERMELHO,
            Jogador::Dois => AZUL,
        }
    }

    /// Nome do jogador na interface.
    pub fn nome(self) -> (r: &'static str)
        ensures
            r == (match self {
                Jogador::Um => "Jogador 1",
                Jogador::Dois => "Jogador 2",
            }),
    {
        match self {
            Jogador::Um => "Jogador 1",
            Jogador::Dois => "Jogador 2",
        }
    }

    /// Numero exibido na interface (1 ou 2).
    pub fn numero(self) -> (r: u8)
        ensures
            r == (match self {
                Jogador::Um => 1u8,
                Jogador::Dois => 2u8,
            }),
    {
        match self {
            Jogador::Um => 1,
            Jogador::Dois => 2,
        }
    }

    /// O adversario do jogador.
    pub fn oponente(self) -> (r: Jogador)
        ensures
            r == oponente_de(self),
    {
        match self {
            Jogador::Um => Jogador::Dois,
            Jogador::Dois => Jogador::Um,
        }
    }

    /// Jogador da vez a partir do numero do turno (turno 0 = jogador 1).
    pub fn da_vez(turno: usize) -> (r: Jogador)
        ensures
            r == jogador_da_vez(turno as int),
    {
        if turno % 2 == 0 {
            Jogador::Um
        } else {
            Jogador::Dois
        }
    }
}

/// O adversario do adversario e o proprio jogador, e ninguem e adversario de
/// si mesmo.
pub proof fn oponente_e_involucao(jogador: Jogador)
    ensures
        oponente_de(oponente_de(jogador)) == jogador,
        oponente_de(jogador) != jogador,
{
}

/// Os turnos alternam os jogadores: quem joga no turno seguinte e o adversario
/// de quem joga agora.
pub proof fn turnos_alternam(turno: nat)
    ensures
        jogador_da_vez(turno + 1int) == oponente_de(jogador_da_vez(turno as int)),
{
}

/// Uma peca posicionada no tabuleiro: o tipo e de quem ela e.
#[derive(Debug, Clone, Copy, PartialEq, Eq, Hash, Structural)]
pub struct Gato {
    pub peca: Peca,
    pub dono: Jogador,
}

impl Gato {
    /// Gato do tipo `peca` pertencente a `dono`.
    pub fn novo(peca: Peca, dono: Jogador) -> (r: Gato)
        ensures
            r == (Gato { peca, dono }),
    {
        Gato { peca, dono }
    }
}

/// Uma casa do tabuleiro: vazia ou ocupada por um gato.
pub type Celula = Option<Gato>;

/// `true` se `(linha, coluna)` e uma casa do tabuleiro.
pub open spec fn na_grade(linha: int, coluna: int) -> bool {
    0 <= linha < TAMANHO_TABULEIRO && 0 <= coluna < TAMANHO_TABULEIRO
}

/// Posicao da casa `(linha, coluna)` na sequencia de 36 casas, linha a linha.
pub open spec fn indice(linha: int, coluna: int) -> int {
    linha * 6 + coluna
}

/// Conteudo da casa `(linha, coluna)` da grade `g`; fora do tabuleiro, vazio.
pub open spec fn casa(g: Seq<Celula>, linha: int, coluna: int) -> Celula {
    if na_grade(linha, coluna) {
        g[indice(linha, coluna)]
    } else {
        None
    }
}

/// A grade `g` com a casa `(linha, coluna)` trocada por `celula`; fora do
/// tabuleiro, a grade fica como esta.
pub open spec fn com_casa(g: Seq<Celula>, linha: int, coluna: int, celula: Celula) -> Seq<
    Celula,
> {
    if na_grade(linha, coluna) {
        g.update(indice(linha, coluna), celula)
    } else {
        g
    }
}

/// `true` se a casa existe e esta vazia.
pub open spec fn vazia_em(g: Seq<Celula>, linha: int, coluna: int) -> bool {
    na_grade(linha, coluna) && casa(g, linha, coluna) is None
}

/// A grade de um tabuleiro vazio.
pub open spec fn grade_vazia() -> Seq<Celula> {
    Seq::new(36, |i: int| None)
}

/// `1` se a celula tem uma peca de `jogador`, senao `0`.
pub open spec fn e_de(celula: Celula, jogador: Jogador) -> nat {
    match celula {
        Some(gato) => if gato.dono == jogador {
            1
        } else {
            0
        },
        None => 0,
    }
}

/// Quantas das `n` primeiras casas de `g` tem peca de `jogador`.
pub open spec fn conta_de(g: Seq<Celula>, jogador: Jogador, n: int) -> nat
    decreases n,
{
    if n <= 0 {
        0
    } else {
        conta_de(g, jogador, n - 1) + e_de(g[n - 1], jogador)
    }
}

/// Quantas pecas de `jogador` ha na grade.
pub open spec fn pecas_na_grade(g: Seq<Celula>, jogador: Jogador) -> nat {
    conta_de(g, jogador, 36)
}

/// Trocar uma casa muda a contagem de um jogador so pelo que saiu e pelo que
/// entrou nessa casa.
pub proof fn lemma_conta_update(g: Seq<Celula>, i: int, x: Celula, jogador: Jogador, n: int)
    requires
        0 <= i < g.len(),
        n <= g.len(),
    ensures
        conta_de(g.update(i, x), jogador, n) + (if 0 <= i < n {
            e_de(g[i], jogador)
        } else {
            0
        }) == conta_de(g, jogador, n) + (if 0 <= i < n {
            e_de(x, jogador)
        } else {
            0
        }),
    decreases n,
{
    if n > 0 {
        lemma_conta_update(g, i, x, jogador, n - 1);
    }
}

/// A contagem nunca passa do numero de casas contadas.
pub proof fn lemma_conta_limite(g: Seq<Celula>, jogador: Jogador, n: int)
    ensures
        conta_de(g, jogador, n) <= if n <= 0 {
            0
        } else {
            n
        },
    decreases n,
{
    if n > 0 {
        lemma_conta_limite(g, jogador, n - 1);
    }
}

/// Uma peca de `jogador` entre as `n` primeiras casas faz a contagem ser
/// positiva.
pub proof fn lemma_conta_positiva(g: Seq<Celula>, jogador: Jogador, i: int, n: int)
    requires
        0 <= i < n <= g.len(),
        e_de(g[i], jogador) == 1,
    ensures
        conta_de(g, jogador, n) >= 1,
    decreases n,
{
    if i < n - 1 {
        lemma_conta_positiva(g, jogador, i, n - 1);
    }
}

/// Tabuleiro 6x6. As casas ficam em um array fixo, linha a linha: a casa
/// `(linha, coluna)` e a de indice `6 * linha + coluna`.
#[derive(Debug, Clone, Copy, PartialEq, Eq)]
pub struct Tabuleiro {
    celulas: [Celula; 36],
}

impl View for Tabuleiro {
    type V = Seq<Celula>;

    /// As 36 casas, linha a linha.
    closed spec fn view(&self) -> Seq<Celula> {
        self.celulas@
    }
}

/// Todo tabuleiro tem 36 casas.
pub broadcast proof fn tabuleiro_tem_36_casas(t: Tabuleiro)
    ensures
        (#[trigger] t@).len() == 36,
{
}

impl Tabuleiro {
    /// Tabuleiro vazio.
    pub fn novo() -> (r: Tabuleiro)
        ensures
            r@ == grade_vazia(),
    {
        let r = Tabuleiro { celulas: [None; 36] };
        assert(r@ =~= grade_vazia());
        r
    }

    /// Conteudo de uma casa. Fora dos limites e tratado como vazio.
    pub fn get(&self, linha: usize, coluna: usize) -> (r: Celula)
        ensures
            r == casa(self@, linha as int, coluna as int),
    {
        if linha < TAMANHO_TABULEIRO && coluna < TAMANHO_TABULEIRO {
            self.celulas[linha * 6 + coluna]
        } else {
            None
        }
    }

    /// Escreve em uma casa. Ignora coordenadas fora dos limites.
    pub fn set(&mut self, linha: usize, coluna: usize, celula: Celula)
        ensures
            final(self)@ == com_casa(old(self)@, linha as int, coluna as int, celula),
    {
        if linha < TAMANHO_TABULEIRO && coluna < TAMANHO_TABULEIRO {
            self.celulas[linha * 6 + coluna] = celula;
        }
    }

    /// `true` se a casa existe e esta vazia.
    pub fn vazia(&self, linha: usize, coluna: usize) -> (r: bool)
        ensures
            r == vazia_em(self@, linha as int, coluna as int),
    {
        linha < TAMANHO_TABULEIRO && coluna < TAMANHO_TABULEIRO && self.get(
            linha,
            coluna,
        ).is_none()
    }

    /// `true` se a coordenada (possivelmente negativa) cai dentro do tabuleiro.
    pub fn dentro(linha: isize, coluna: isize) -> (r: bool)
        ensures
            r == na_grade(linha as int, coluna as int),
    {
        linha >= 0 && coluna >= 0 && (linha as usize) < TAMANHO_TABULEIRO && (coluna as usize)
            < TAMANHO_TABULEIRO
    }

    /// Quantas pecas do jogador estao no tabuleiro.
    pub fn pecas_de(&self, jogador: Jogador) -> (r: u8)
        ensures
            r == pecas_na_grade(self@, jogador),
    {
        let mut total: u8 = 0;
        let mut linha: usize = 0;
        while linha < TAMANHO_TABULEIRO
            invariant
                linha <= 6,
                self@.len() == 36,
                total == conta_de(self@, jogador, 6 * linha),
            decreases 6 - linha,
        {
            let mut coluna: usize = 0;
            while coluna < TAMANHO_TABULEIRO
                invariant
                    linha < 6,
                    coluna <= 6,
                    self@.len() == 36,
                    total == conta_de(self@, jogador, 6 * linha + coluna),
                decreases 6 - coluna,
            {
                proof {
                    lemma_conta_limite(self@, jogador, 6 * linha + coluna);
                }
                if let Some(gato) = self.get(linha, coluna) {
                    if gato.dono == jogador {
                        total += 1;
                    }
                }
                coluna += 1;
            }
            linha += 1;
        }
        total
    }
}

impl Default for Tabuleiro {
    fn default() -> (r: Tabuleiro)
        ensures
            r@ == grade_vazia(),
    {
        Tabuleiro::novo()
    }
}

/// `direcao` e uma das 8 direcoes: passo de no maximo uma casa em cada eixo,
/// e nao nulo.
pub open spec fn direcao_unitaria(direcao: (int, int)) -> bool {
    -1 <= direcao.0 <= 1 && -1 <= direcao.1 <= 1 && (direcao.0 != 0 || direcao.1 != 0)
}

/// Casa alcancada a partir de `(linha, coluna)` seguindo `direcao`, se ela
/// estiver no tabuleiro.
pub open spec fn passo(linha: int, coluna: int, direcao: (isize, isize)) -> Option<(usize, usize)> {
    let nova_linha = linha + direcao.0;
    let nova_coluna = coluna + direcao.1;
    if na_grade(nova_linha, nova_coluna) {
        Some((nova_linha as usize, nova_coluna as usize))
    } else {
        None
    }
}

/// Desloca uma coordenada por uma direcao. `None` se sair do tabuleiro.
///
/// As contas sao feitas em `i128`, onde qualquer `usize` somado a qualquer
/// `isize` cabe: nao ha coordenada que de a volta e caia no tabuleiro.
pub fn deslocar(linha: usize, coluna: usize, direcao: (isize, isize)) -> (r: Option<(usize, usize)>)
    ensures
        r == passo(linha as int, coluna as int, direcao),
{
    let nova_linha = linha as i128 + direcao.0 as i128;
    let nova_coluna = coluna as i128 + direcao.1 as i128;
    if 0 <= nova_linha && nova_linha < TAMANHO_TABULEIRO as i128 && 0 <= nova_coluna
        && nova_coluna < TAMANHO_TABULEIRO as i128 {
        Some((nova_linha as usize, nova_coluna as usize))
    } else {
        None
    }
}

/// Pecas de um jogador: as que estao na mao e a contagem das que estao no
/// tabuleiro. Toda mudanca passa por `colocar`, `devolver` ou `graduar_trio`,
/// que preservam `gatinhos + gatoes + ativas == PECAS_POR_JOGADOR`.
#[derive(Debug, Clone, Copy, PartialEq, Eq, Structural)]
pub struct Mao {
    pub gatinhos: u8,
    pub gatoes: u8,
    pub ativas: u8,
}

impl Mao {
    /// A soma das pecas na mao e no tabuleiro e `PECAS_POR_JOGADOR`.
    pub open spec fn bem_formada(self) -> bool {
        self.gatinhos + self.gatoes + self.ativas == PECAS_POR_JOGADOR
    }

    /// `true` se ha essa peca na mao.
    pub open spec fn possui(self, peca: Peca) -> bool {
        match peca {
            Peca::Gatinho => self.gatinhos > 0,
            Peca::Gatao => self.gatoes > 0,
        }
    }

    /// A mao depois de tirar uma `peca` dela para o tabuleiro.
    pub open spec fn apos_colocar(self, peca: Peca) -> Mao {
        match peca {
            Peca::Gatinho => Mao {
                gatinhos: (self.gatinhos - 1) as u8,
                gatoes: self.gatoes,
                ativas: (self.ativas + 1) as u8,
            },
            Peca::Gatao => Mao {
                gatinhos: self.gatinhos,
                gatoes: (self.gatoes - 1) as u8,
                ativas: (self.ativas + 1) as u8,
            },
        }
    }

    /// A mao depois que uma `peca` sua sai do tabuleiro e volta para ela.
    pub open spec fn apos_devolver(self, peca: Peca) -> Mao {
        match peca {
            Peca::Gatinho => Mao {
                gatinhos: (self.gatinhos + 1) as u8,
                gatoes: self.gatoes,
                ativas: (self.ativas - 1) as u8,
            },
            Peca::Gatao => Mao {
                gatinhos: self.gatinhos,
                gatoes: (self.gatoes + 1) as u8,
                ativas: (self.ativas - 1) as u8,
            },
        }
    }

    /// A mao depois de `n` trios graduados: `3 * n` pecas saem do tabuleiro e
    /// voltam como gatoes.
    pub open spec fn apos_graduar(self, n: nat) -> Mao {
        Mao {
            gatinhos: self.gatinhos,
            gatoes: (self.gatoes + 3 * n) as u8,
            ativas: (self.ativas - 3 * n) as u8,
        }
    }

    /// Graduar `i` trios e depois mais um e graduar `i + 1` trios; no meio
    /// do caminho a mao segue bem formada e com 3 pecas ativas para o proximo.
    pub proof fn lemma_graduar_um_a_um(self, i: nat)
        requires
            self.bem_formada(),
            3 * (i + 1) <= self.ativas,
        ensures
            self.apos_graduar(i).bem_formada(),
            self.apos_graduar(i).ativas >= 3,
            self.apos_graduar(i).apos_graduar(1) == self.apos_graduar(i + 1),
    {
    }

    /// A mao inicial.
    pub open spec fn nova_spec() -> Mao {
        Mao { gatinhos: PECAS_POR_JOGADOR, gatoes: 0, ativas: 0 }
    }

    /// Mao inicial: 8 gatinhos, nada no tabuleiro.
    pub fn nova() -> (r: Mao)
        ensures
            r == Mao::nova_spec(),
    {
        Mao { gatinhos: PECAS_POR_JOGADOR, gatoes: 0, ativas: 0 }
    }

    /// `true` se ha essa peca disponivel na mao para jogar.
    pub fn tem(&self, peca: Peca) -> (r: bool)
        ensures
            r == self.possui(peca),
    {
        match peca {
            Peca::Gatinho => self.gatinhos > 0,
            Peca::Gatao => self.gatoes > 0,
        }
    }

    /// Tira uma peca da mao e a contabiliza no tabuleiro.
    /// Retorna `false` (sem alterar nada) se o jogador nao tiver a peca.
    pub fn colocar(&mut self, peca: Peca) -> (r: bool)
        requires
            old(self).possui(peca) ==> old(self).bem_formada(),
        ensures
            r == old(self).possui(peca),
            r ==> *final(self) == old(self).apos_colocar(peca),
            !r ==> *final(self) == *old(self),
    {
        if !self.tem(peca) {
            return false;
        }
        match peca {
            Peca::Gatinho => self.gatinhos -= 1,
            Peca::Gatao => self.gatoes -= 1,
        }
        self.ativas += 1;
        true
    }

    /// Uma peca saiu do tabuleiro (empurrada para fora) e volta para a mao.
    pub fn devolver(&mut self, peca: Peca)
        requires
            old(self).bem_formada(),
            old(self).ativas > 0,
        ensures
            *final(self) == old(self).apos_devolver(peca),
    {
        self.ativas = self.ativas - 1;
        match peca {
            Peca::Gatinho => self.gatinhos += 1,
            Peca::Gatao => self.gatoes += 1,
        }
    }

    /// Um trio de gatinhos se graduou: as 3 pecas saem do tabuleiro e voltam
    /// para a mao como gatoes.
    pub fn graduar_trio(&mut self)
        requires
            old(self).bem_formada(),
            old(self).ativas >= 3,
        ensures
            *final(self) == old(self).apos_graduar(1),
    {
        self.ativas = self.ativas - 3;
        self.gatoes += 3;
    }

    /// Total de pecas do jogador; numa mao bem formada, `PECAS_POR_JOGADOR`.
    pub fn total(&self) -> (r: u8)
        requires
            self.gatinhos + self.gatoes + self.ativas <= u8::MAX,
        ensures
            r == self.gatinhos + self.gatoes + self.ativas,
    {
        self.gatinhos + self.gatoes + self.ativas
    }

    /// `true` se o jogador nao tem nenhuma peca na mao para jogar.
    pub fn sem_pecas(&self) -> (r: bool)
        ensures
            r == (self.gatinhos == 0 && self.gatoes == 0),
    {
        self.gatinhos == 0 && self.gatoes == 0
    }
}

/// Colocar, devolver e graduar mantem a mao bem formada.
pub proof fn mao_bem_formada_e_preservada(mao: Mao, peca: Peca)
    requires
        mao.bem_formada(),
    ensures
        mao.possui(peca) ==> mao.apos_colocar(peca).bem_formada(),
        mao.ativas > 0 ==> mao.apos_devolver(peca).bem_formada(),
        mao.ativas >= 3 ==> mao.apos_graduar(1).bem_formada(),
{
}

impl Default for Mao {
    fn default() -> (r: Mao)
        ensures
            r == Mao::nova_spec(),
    {
        Mao::nova()
    }
}

/// As maos dos dois jogadores.
#[derive(Debug, Clone, Copy, PartialEq, Eq, Structural)]
pub struct Maos {
    pub jogador1: Mao,
    pub jogador2: Mao,
}

impl Maos {
    /// A mao de `jogador`.
    pub open spec fn mao(self, jogador: Jogador) -> Mao {
        match jogador {
            Jogador::Um => self.jogador1,
            Jogador::Dois => self.jogador2,
        }
    }

    /// As maos com a de `jogador` trocada por `mao`.
    pub open spec fn com(self, jogador: Jogador, mao: Mao) -> Maos {
        match jogador {
            Jogador::Um => Maos { jogador1: mao, jogador2: self.jogador2 },
            Jogador::Dois => Maos { jogador1: self.jogador1, jogador2: mao },
        }
    }

    /// As maos depois que `gato` sai do tabuleiro e volta para o seu dono.
    pub open spec fn devolve(self, gato: Gato) -> Maos {
        self.com(gato.dono, self.mao(gato.dono).apos_devolver(gato.peca))
    }

    /// `gato` pode voltar para a mao do dono: ela esta bem formada e tem
    /// pecas ativas.
    pub open spec fn pode_devolver(self, gato: Gato) -> bool {
        self.mao(gato.dono).bem_formada() && self.mao(gato.dono).ativas > 0
    }

    /// As maos depois que os gatos de `s` voltam, em ordem, para os donos.
    pub open spec fn devolve_todas(self, s: Seq<Gato>) -> Maos
        decreases s.len(),
    {
        if s.len() == 0 {
            self
        } else {
            self.devolve_todas(s.drop_last()).devolve(s.last())
        }
    }

    /// Cada gato de `s`, na sua vez, pode voltar para a mao do dono.
    pub open spec fn aceita_devolucoes(self, s: Seq<Gato>) -> bool
        decreases s.len(),
    {
        s.len() == 0 || (self.aceita_devolucoes(s.drop_last()) && self.devolve_todas(
            s.drop_last(),
        ).pode_devolver(s.last()))
    }

    /// Maos iniciais dos dois jogadores.
    pub fn novas() -> (r: Maos)
        ensures
            r.jogador1 == Mao::nova_spec(),
            r.jogador2 == Mao::nova_spec(),
    {
        Maos { jogador1: Mao::nova(), jogador2: Mao::nova() }
    }

    /// A mao de `jogador`, para leitura.
    pub fn ver(&self, jogador: Jogador) -> (r: &Mao)
        ensures
            *r == self.mao(jogador),
    {
        match jogador {
            Jogador::Um => &self.jogador1,
            Jogador::Dois => &self.jogador2,
        }
    }

    /// A mao de `jogador`, para alteracao.
    pub fn de(&mut self, jogador: Jogador) -> (r: &mut Mao)
        ensures
            *r == old(self).mao(jogador),
            *final(self) == old(self).com(jogador, *final(r)),
    {
        match jogador {
            Jogador::Um => &mut self.jogador1,
            Jogador::Dois => &mut self.jogador2,
        }
    }
}

/// As maos batem com a grade: cada mao esta bem formada e as suas pecas
/// ativas sao exatamente as pecas do jogador no tabuleiro.
pub open spec fn consistente(g: Seq<Celula>, maos: Maos) -> bool {
    &&& g.len() == 36
    &&& maos.jogador1.bem_formada()
    &&& maos.jogador2.bem_formada()
    &&& maos.jogador1.ativas == pecas_na_grade(g, Jogador::Um)
    &&& maos.jogador2.ativas == pecas_na_grade(g, Jogador::Dois)
}

impl Default for Maos {
    fn default() -> (r: Maos)
        ensures
            r.jogador1 == Mao::nova_spec(),
            r.jogador2 == Mao::nova_spec(),
    {
        Maos::novas()
    }
}

} // verus!
