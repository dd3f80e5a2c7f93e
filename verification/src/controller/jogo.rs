//! Andamento de uma partida: de quem e a vez, quando o turno e pulado, quando
//! a partida termina e o que uma jogada faz com o estado.
//!
//! As decisoes do laco principal moram aqui; ler a jogada e desenhar o
//! tabuleiro ficam com quem roda o laco.
use vstd::prelude::*;

use crate::controller::turno::{fluxo, fluxo_jogo, turno_preserva_consistencia};
use crate::model::jogada::{veredito, verificar_jogada, Jogada, JogadaInvalida};
use crate::model::tipos::{
    consistente, grade_vazia, jogador_da_vez, tabuleiro_tem_36_casas, Celula, Jogador, Mao, Maos,
    Tabuleiro,
};
use crate::model::vitoria::{estado, estado_do_jogo, FimDeJogo};

verus! {

broadcast use tabuleiro_tem_36_casas;

/// O que fazer no inicio de um turno.
#[derive(Debug, Clone, Copy, PartialEq, Eq, Structural)]
pub enum Situacao {
    /// A partida acabou.
    Encerrada(FimDeJogo),
    /// O jogador da vez nao tem pecas na mao: o turno e pulado.
    SemPecas(Jogador),
    /// O jogador da vez deve escolher uma jogada.
    AguardaJogada(Jogador),
}

/// Situacao no inicio do turno `turno` com esta grade e estas maos: fim de
/// jogo, se houver; senao turno pulado, se o jogador da vez nao tem pecas na
/// mao; senao a vez dele.
pub open spec fn situacao_de(g: Seq<Celula>, maos: Maos, turno: int) -> Situacao {
    match estado(g, maos) {
        Some(fim) => Situacao::Encerrada(fim),
        None => {
            let atual = jogador_da_vez(turno);
            if maos.mao(atual).gatinhos == 0 && maos.mao(atual).gatoes == 0 {
                Situacao::SemPecas(atual)
            } else {
                Situacao::AguardaJogada(atual)
            }
        },
    }
}

/// Estado de uma partida: tabuleiro, maos e numero do turno. As maos estao
/// sempre de acordo com o tabuleiro.
pub struct Partida {
    tabuleiro: Tabuleiro,
    maos: Maos,
    turno: usize,
}

impl Partida {
    /// Cada jogador tem suas 8 pecas, e as ativas sao as que estao no
    /// tabuleiro.
    #[verifier::type_invariant]
    spec fn maos_de_acordo(self) -> bool {
        consistente(self.tabuleiro@, self.maos)
    }

    /// Grade do tabuleiro.
    pub closed spec fn grade(self) -> Seq<Celula> {
        self.tabuleiro@
    }

    /// Maos dos jogadores.
    pub closed spec fn maos_spec(self) -> Maos {
        self.maos
    }

    /// Numero do turno (o primeiro e o 0).
    pub closed spec fn turno_spec(self) -> nat {
        self.turno as nat
    }

    /// Partida no inicio: tabuleiro vazio, maos iniciais, turno 0.
    pub fn nova() -> (r: Partida)
        ensures
            r.grade() == grade_vazia(),
            r.maos_spec() == (Maos { jogador1: Mao::nova_spec(), jogador2: Mao::nova_spec() }),
            r.turno_spec() == 0,
    {
        let tabuleiro = Tabuleiro::novo();
        let maos = Maos::novas();
        proof {
            pecas_zero(tabuleiro@);
        }
        Partida { tabuleiro, maos, turno: 0 }
    }

    /// O tabuleiro; as maos estao de acordo com ele.
    pub fn tabuleiro(&self) -> (r: Tabuleiro)
        ensures
            r@ == self.grade(),
            consistente(r@, self.maos_spec()),
    {
        proof {
            use_type_invariant(self);
        }
        self.tabuleiro
    }

    /// As maos; estao de acordo com o tabuleiro.
    pub fn maos(&self) -> (r: Maos)
        ensures
            r == self.maos_spec(),
            consistente(self.grade(), r),
    {
        proof {
            use_type_invariant(self);
        }
        self.maos
    }

    /// Numero do turno.
    pub fn turno(&self) -> (r: usize)
        ensures
            r == self.turno_spec(),
    {
        self.turno
    }

    /// Jogador da vez.
    pub fn da_vez(&self) -> (r: Jogador)
        ensures
            r == jogador_da_vez(self.turno_spec() as int),
    {
        Jogador::da_vez(self.turno)
    }

    /// O que fazer no inicio do turno: anunciar o fim, pular o turno ou pedir
    /// uma jogada.
    pub fn situacao(&self) -> (r: Situacao)
        ensures
            r == situacao_de(self.grade(), self.maos_spec(), self.turno_spec() as int),
    {
        // Fim de jogo alcancado sem jogada nova (ex.: os dois jogadores
        // ficaram sem pecas).
        if let Some(fim) = estado_do_jogo(&self.tabuleiro, &self.maos) {
            return Situacao::Encerrada(fim);
        }
        let atual = Jogador::da_vez(self.turno);
        // Sem pecas na mao: nao ha jogada possivel, pula o turno.
        if self.maos.ver(atual).sem_pecas() {
            Situacao::SemPecas(atual)
        } else {
            Situacao::AguardaJogada(atual)
        }
    }

    /// Passa a vez sem jogar.
    pub fn pular_turno(&mut self)
        requires
            old(self).turno_spec() < usize::MAX,
        ensures
            final(self).grade() == old(self).grade(),
            final(self).maos_spec() == old(self).maos_spec(),
            final(self).turno_spec() == old(self).turno_spec() + 1,
    {
        proof {
            use_type_invariant(&*self);
        }
        *self = Partida { tabuleiro: self.tabuleiro, maos: self.maos, turno: self.turno + 1 };
    }

    /// Joga pelo jogador da vez. Uma jogada recusada por `verificar_jogada`
    /// devolve o motivo e nao muda nada. Uma jogada aceita executa o turno;
    /// se a partida acabou, devolve o fim (e o turno nao avanca); senao passa
    /// a vez.
    pub fn jogar(&mut self, jogada: &Jogada) -> (r: Result<Option<FimDeJogo>, JogadaInvalida>)
        requires
            old(self).turno_spec() < usize::MAX,
        ensures
            ({
                let atual = jogador_da_vez(old(self).turno_spec() as int);
                let v = veredito(
                    old(self).grade(),
                    jogada.linha as int,
                    jogada.coluna as int,
                    jogada.peca,
                    old(self).maos_spec().mao(atual),
                );
                let (g, m) = fluxo(old(self).grade(), old(self).maos_spec(), *jogada, atual);
                match v {
                    Err(motivo) => {
                        &&& r == Err::<Option<FimDeJogo>, JogadaInvalida>(motivo)
                        &&& *final(self) == *old(self)
                    },
                    Ok(()) => {
                        &&& r == Ok::<Option<FimDeJogo>, JogadaInvalida>(estado(g, m))
                        &&& final(self).grade() == g
                        &&& final(self).maos_spec() == m
                        &&& final(self).turno_spec() == if estado(g, m) is Some {
                            old(self).turno_spec()
                        } else {
                            old(self).turno_spec() + 1
                        }
                    },
                }
            }),
    {
        proof {
            use_type_invariant(&*self);
        }
        let atual = Jogador::da_vez(self.turno);
        if let Err(motivo) = verificar_jogada(
            &self.tabuleiro,
            jogada.linha,
            jogada.coluna,
            jogada.peca,
            self.maos.ver(atual),
        ) {
            return Err(motivo);
        }
        let mut tabuleiro = self.tabuleiro;
        let mut maos = self.maos;
        proof {
            turno_preserva_consistencia(tabuleiro@, maos, *jogada, atual);
        }
        fluxo_jogo(&mut tabuleiro, jogada, atual, &mut maos);
        let fim = estado_do_jogo(&tabuleiro, &maos);
        let turno = if fim.is_some() {
            self.turno
        } else {
            self.turno + 1
        };
        *self = Partida { tabuleiro, maos, turno };
        Ok(fim)
    }
}

/// Nenhum jogador tem peca na grade vazia.
proof fn pecas_zero(g: Seq<Celula>)
    requires
        g == grade_vazia(),
    ensures
        consistente(g, Maos { jogador1: Mao::nova_spec(), jogador2: Mao::nova_spec() }),
{
    lemma_conta_vazia(g, Jogador::Um, 36);
    lemma_conta_vazia(g, Jogador::Dois, 36);
}

proof fn lemma_conta_vazia(g: Seq<Celula>, jogador: Jogador, n: int)
    requires
        g == grade_vazia(),
        n <= 36,
    ensures
        crate::model::tipos::conta_de(g, jogador, n) == 0,
    decreases n,
{
    if n > 0 {
        lemma_conta_vazia(g, jogador, n - 1);
    }
}

/// No inicio de um turno, uma partida acabada e anunciada como acabada, com o
/// seu fim (cama cheia e trio de gatoes dao vitoria; maos vazias, empate); e
/// so ela: uma partida em andamento pede a jogada do jogador da vez, ou pula
/// o turno quando ele nao tem nenhuma peca na mao.
pub proof fn situacao_anuncia_o_fim(g: Seq<Celula>, maos: Maos, turno: int)
    ensures
        estado(g, maos) matches Some(fim) ==> situacao_de(g, maos, turno) == Situacao::Encerrada(
            fim,
        ),
        situacao_de(g, maos, turno) is Encerrada <==> estado(g, maos) is Some,
        maos.jogador1.ativas == 8 ==> situacao_de(g, maos, turno) == Situacao::Encerrada(
            FimDeJogo::Vitoria(Jogador::Um),
        ),
        estado(g, maos) is None ==> (situacao_de(g, maos, turno) is SemPecas
            <==> maos.mao(jogador_da_vez(turno)).gatinhos == 0 && maos.mao(
            jogador_da_vez(turno),
        ).gatoes == 0),
        estado(g, maos) is None ==> (situacao_de(g, maos, turno) == Situacao::SemPecas(
            jogador_da_vez(turno),
        ) || situacao_de(g, maos, turno) == Situacao::AguardaJogada(jogador_da_vez(turno))),
{
}

/// Depois de uma jogada que termina a partida, a situacao no mesmo turno (que
/// `Partida::jogar` nao avanca nesse caso) e o fim que a jogada devolveu.
pub proof fn fim_devolvido_e_anunciado(g: Seq<Celula>, maos: Maos, turno: int, jogada: Jogada)
    ensures
        ({
            let atual = jogador_da_vez(turno);
            let (g2, m2) = fluxo(g, maos, jogada, atual);
            estado(g2, m2) matches Some(fim) ==> situacao_de(g2, m2, turno)
                == Situacao::Encerrada(fim)
        }),
{
}

} // verus!
