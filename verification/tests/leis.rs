//! Casos concretos das leis da biblioteca e dos limites das regras.

use boop::controller::jogo::{Partida, Situacao};
use boop::controller::turno::fluxo_jogo;
use boop::model::graduar::{graduar, trios_de_gatinhos};
use boop::model::jogada::{
    aplicar_boop, boop_nas_oito_direcoes, colocar_peca, faz_boop, verificar_jogada, Jogada,
    JogadaInvalida,
};
use boop::model::tipos::{deslocar, Gato, Jogador, Mao, Maos, Peca, Tabuleiro, AZUL, VERMELHO};
use boop::model::vitoria::{estado_do_jogo, verifica_vitoria, FimDeJogo};
use boop::view::entrada::{parse_jogada, EntradaInvalida};
use boop::view::tabuleiro::render_tabuleiro;

fn gato(peca: Peca, dono: Jogador) -> Option<Gato> {
    Some(Gato::novo(peca, dono))
}

#[test]
fn simbolo_e_do_char_sao_inversos_nos_dois_tipos() {
    assert_eq!(Peca::Gatinho.simbolo(), 'g');
    assert_eq!(Peca::Gatao.simbolo(), 'G');
    assert_eq!(Peca::do_char(Peca::Gatinho.simbolo()), Some(Peca::Gatinho));
    assert_eq!(Peca::do_char(Peca::Gatao.simbolo()), Some(Peca::Gatao));
    assert_eq!(Peca::do_char('x'), None);
    assert_eq!(Peca::Gatinho.nome(), "gatinho");
    assert_eq!(Peca::Gatao.nome(), "gatao");
}

#[test]
fn oponente_e_involucao_e_turnos_alternam() {
    assert_eq!(Jogador::Um.oponente(), Jogador::Dois);
    assert_eq!(Jogador::Dois.oponente().oponente(), Jogador::Dois);
    for turno in 0..10usize {
        assert_eq!(Jogador::da_vez(turno + 1), Jogador::da_vez(turno).oponente());
    }
    assert_eq!(Jogador::da_vez(0), Jogador::Um);
    assert_eq!(Jogador::da_vez(7), Jogador::Dois);
}

#[test]
fn cor_numero_e_nome_dos_jogadores() {
    assert_eq!(Jogador::Um.cor(), VERMELHO);
    assert_eq!(Jogador::Dois.cor(), AZUL);
    assert_eq!(Jogador::Um.numero(), 1);
    assert_eq!(Jogador::Dois.numero(), 2);
    assert_eq!(Jogador::Um.nome(), "Jogador 1");
    assert_eq!(Jogador::Dois.nome(), "Jogador 2");
}

#[test]
fn mao_bem_formada_e_preservada_por_colocar_devolver_e_graduar() {
    let mut mao = Mao::nova();
    assert_eq!(mao.total(), 8);
    assert!(mao.colocar(Peca::Gatinho));
    assert_eq!(mao, Mao { gatinhos: 7, gatoes: 0, ativas: 1 });
    assert!(mao.colocar(Peca::Gatinho));
    assert!(mao.colocar(Peca::Gatinho));
    mao.graduar_trio();
    assert_eq!(mao, Mao { gatinhos: 5, gatoes: 3, ativas: 0 });
    assert!(mao.colocar(Peca::Gatao));
    mao.devolver(Peca::Gatao);
    assert_eq!(mao, Mao { gatinhos: 5, gatoes: 3, ativas: 0 });
    assert_eq!(mao.total(), 8);
}

#[test]
fn colocar_sem_a_peca_nao_altera_a_mao() {
    let mut mao = Mao::nova();
    assert!(!mao.colocar(Peca::Gatao));
    assert_eq!(mao, Mao::nova());
    assert!(!mao.sem_pecas());
    let vazia = Mao { gatinhos: 0, gatoes: 0, ativas: 8 };
    assert!(vazia.sem_pecas());
    assert!(!vazia.tem(Peca::Gatinho));
}

#[test]
fn maos_de_altera_so_a_mao_pedida() {
    let mut maos = Maos::novas();
    maos.de(Jogador::Dois).colocar(Peca::Gatinho);
    assert_eq!(*maos.ver(Jogador::Um), Mao::nova());
    assert_eq!(*maos.ver(Jogador::Dois), Mao { gatinhos: 7, gatoes: 0, ativas: 1 });
    assert_eq!(Maos::default(), Maos::novas());
    assert_eq!(Mao::default(), Mao::nova());
}

#[test]
fn tabuleiro_ignora_coordenadas_fora_dos_limites() {
    let mut tabuleiro = Tabuleiro::novo();
    tabuleiro.set(6, 0, gato(Peca::Gatinho, Jogador::Um));
    tabuleiro.set(0, 6, gato(Peca::Gatinho, Jogador::Um));
    assert_eq!(tabuleiro, Tabuleiro::default());
    assert_eq!(tabuleiro.get(9, 9), None);
    assert!(!tabuleiro.vazia(6, 0));
    assert!(tabuleiro.vazia(5, 5));
    assert!(Tabuleiro::dentro(0, 5));
    assert!(!Tabuleiro::dentro(-1, 0));
    assert!(!Tabuleiro::dentro(0, 6));
}

#[test]
fn pecas_de_conta_as_pecas_de_cada_jogador() {
    let mut tabuleiro = Tabuleiro::novo();
    tabuleiro.set(0, 0, gato(Peca::Gatinho, Jogador::Um));
    tabuleiro.set(5, 5, gato(Peca::Gatao, Jogador::Um));
    tabuleiro.set(2, 3, gato(Peca::Gatinho, Jogador::Dois));
    assert_eq!(tabuleiro.pecas_de(Jogador::Um), 2);
    assert_eq!(tabuleiro.pecas_de(Jogador::Dois), 1);
}

#[test]
fn deslocar_nas_bordas() {
    assert_eq!(deslocar(0, 0, (-1, 0)), None);
    assert_eq!(deslocar(5, 5, (1, 1)), None);
    assert_eq!(deslocar(2, 3, (1, -1)), Some((3, 2)));
    assert_eq!(deslocar(0, 5, (0, -1)), Some((0, 4)));
}

#[test]
fn aplicar_boop_em_uma_direcao_so_mexe_nessa_direcao() {
    let mut tabuleiro = Tabuleiro::novo();
    let mut maos = Maos::novas();
    tabuleiro.set(2, 3, gato(Peca::Gatinho, Jogador::Dois));
    tabuleiro.set(2, 1, gato(Peca::Gatinho, Jogador::Dois));
    aplicar_boop(&mut tabuleiro, 2, 2, (0, 1), Peca::Gatinho, &mut maos);
    assert_eq!(tabuleiro.get(2, 4), gato(Peca::Gatinho, Jogador::Dois));
    assert_eq!(tabuleiro.get(2, 3), None);
    // A outra vizinha nao foi tocada.
    assert_eq!(tabuleiro.get(2, 1), gato(Peca::Gatinho, Jogador::Dois));
    assert_eq!(maos, Maos::novas());
}

#[test]
fn boop_nas_oito_direcoes_empurra_todas_as_vizinhas() {
    let mut tabuleiro = Tabuleiro::novo();
    let mut maos = Maos::novas();
    for &(l, c) in &[(1, 1), (1, 2), (1, 3), (2, 1), (2, 3), (3, 1), (3, 2), (3, 3)] {
        tabuleiro.set(l, c, gato(Peca::Gatinho, Jogador::Dois));
    }
    tabuleiro.set(2, 2, gato(Peca::Gatao, Jogador::Um));
    boop_nas_oito_direcoes(&mut tabuleiro, 2, 2, Peca::Gatao, &mut maos);
    for &(l, c) in &[(0, 0), (0, 2), (0, 4), (2, 0), (2, 4), (4, 0), (4, 2), (4, 4)] {
        assert_eq!(tabuleiro.get(l, c), gato(Peca::Gatinho, Jogador::Dois));
    }
    assert_eq!(tabuleiro.pecas_de(Jogador::Dois), 8);
    assert_eq!(tabuleiro.get(2, 2), gato(Peca::Gatao, Jogador::Um));
}

#[test]
fn colocar_peca_sem_a_peca_na_mao_so_muda_o_tabuleiro() {
    let mut tabuleiro = Tabuleiro::novo();
    let mut maos = Maos::novas();
    colocar_peca(&mut tabuleiro, 4, 4, Peca::Gatao, Jogador::Um, &mut maos);
    assert_eq!(tabuleiro.get(4, 4), gato(Peca::Gatao, Jogador::Um));
    assert_eq!(maos, Maos::novas());
    colocar_peca(&mut tabuleiro, 1, 4, Peca::Gatinho, Jogador::Dois, &mut maos);
    assert_eq!(*maos.ver(Jogador::Dois), Mao { gatinhos: 7, gatoes: 0, ativas: 1 });
}

#[test]
fn gatao_empurrado_para_fora_volta_como_gatao() {
    let mut tabuleiro = Tabuleiro::novo();
    let mut maos = Maos::novas();
    maos.jogador2 = Mao { gatinhos: 5, gatoes: 2, ativas: 1 };
    tabuleiro.set(0, 3, gato(Peca::Gatao, Jogador::Dois));
    maos.jogador1 = Mao { gatinhos: 7, gatoes: 1, ativas: 0 };
    faz_boop(&mut tabuleiro, 1, 3, Peca::Gatao, Jogador::Um, &mut maos);
    assert_eq!(tabuleiro.get(0, 3), None);
    assert_eq!(*maos.ver(Jogador::Dois), Mao { gatinhos: 5, gatoes: 3, ativas: 0 });
    assert_eq!(*maos.ver(Jogador::Um), Mao { gatinhos: 7, gatoes: 0, ativas: 1 });
}

#[test]
fn bloco_de_gatinhos_gradua_trios_disjuntos() {
    let mut tabuleiro = Tabuleiro::novo();
    let mut maos = Maos::novas();
    maos.jogador1 = Mao { gatinhos: 0, gatoes: 0, ativas: 8 };
    for l in 0..3 {
        for c in 0..3 {
            if (l, c) != (2, 2) {
                tabuleiro.set(l, c, gato(Peca::Gatinho, Jogador::Um));
            }
        }
    }
    tabuleiro.set(2, 2, gato(Peca::Gatao, Jogador::Um));

    let trios = trios_de_gatinhos(&tabuleiro, Jogador::Um);
    // A varredura aceita a linha 0 e a linha 1; todo outro alinhamento reusa
    // uma dessas casas ou passa pelo gatao.
    assert_eq!(
        trios,
        vec![[(0, 0), (0, 1), (0, 2)], [(1, 0), (1, 1), (1, 2)]]
    );
    let mut casas: Vec<(usize, usize)> = trios.iter().flat_map(|t| t.iter().copied()).collect();
    casas.sort();
    casas.dedup();
    assert_eq!(casas.len(), 6, "nenhuma casa em dois trios");

    let quantos = graduar(&mut tabuleiro, Jogador::Um, &mut maos);
    assert_eq!(quantos, 2);
    assert_eq!(*maos.ver(Jogador::Um), Mao { gatinhos: 0, gatoes: 6, ativas: 2 });
    // Depois de graduar nao sobra trio de gatinhos.
    assert!(trios_de_gatinhos(&tabuleiro, Jogador::Um).is_empty());
    assert_eq!(tabuleiro.get(2, 0), gato(Peca::Gatinho, Jogador::Um));
    assert_eq!(tabuleiro.get(2, 1), gato(Peca::Gatinho, Jogador::Um));
}

#[test]
fn trio_de_gatoes_na_diagonal_secundaria_de_cima_para_baixo_vence() {
    let mut tabuleiro = Tabuleiro::novo();
    tabuleiro.set(0, 5, gato(Peca::Gatao, Jogador::Dois));
    tabuleiro.set(1, 4, gato(Peca::Gatao, Jogador::Dois));
    tabuleiro.set(2, 3, gato(Peca::Gatao, Jogador::Dois));
    assert_eq!(verifica_vitoria(&tabuleiro, &Maos::novas()), Some(Jogador::Dois));
}

#[test]
fn dois_gatoes_nao_vencem() {
    let mut tabuleiro = Tabuleiro::novo();
    tabuleiro.set(4, 4, gato(Peca::Gatao, Jogador::Um));
    tabuleiro.set(5, 5, gato(Peca::Gatao, Jogador::Um));
    assert_eq!(verifica_vitoria(&tabuleiro, &Maos::novas()), None);
    assert_eq!(estado_do_jogo(&tabuleiro, &Maos::novas()), None);
}

#[test]
fn cama_cheia_vale_mesmo_com_trio_do_adversario() {
    let mut tabuleiro = Tabuleiro::novo();
    for c in 0..3 {
        tabuleiro.set(5, c, gato(Peca::Gatao, Jogador::Um));
    }
    let mut maos = Maos::novas();
    maos.jogador2 = Mao { gatinhos: 0, gatoes: 0, ativas: 8 };
    assert_eq!(
        estado_do_jogo(&tabuleiro, &maos),
        Some(FimDeJogo::Vitoria(Jogador::Dois))
    );
}

#[test]
fn parse_aceita_sinal_mais_e_zeros_a_esquerda() {
    assert_eq!(
        parse_jogada("g +3 b"),
        Ok(Jogada { peca: Peca::Gatinho, linha: 2, coluna: 1 })
    );
    assert_eq!(
        parse_jogada("G 0006 f"),
        Ok(Jogada { peca: Peca::Gatao, linha: 5, coluna: 5 })
    );
}

#[test]
fn parse_recusa_linhas_negativas_enormes_ou_sem_digitos() {
    assert_eq!(parse_jogada("g -1 A"), Err(EntradaInvalida::Linha));
    assert_eq!(parse_jogada("g -0 A"), Err(EntradaInvalida::Linha));
    assert_eq!(parse_jogada("g 99999999999999 A"), Err(EntradaInvalida::Linha));
    assert_eq!(parse_jogada("g + A"), Err(EntradaInvalida::Linha));
    assert_eq!(parse_jogada("g 1x A"), Err(EntradaInvalida::Linha));
}

#[test]
fn parse_separa_campos_por_qualquer_espaco_unicode() {
    assert_eq!(
        parse_jogada("g\u{3000}1\u{a0}\tA"),
        Ok(Jogada { peca: Peca::Gatinho, linha: 0, coluna: 0 })
    );
}

#[test]
fn parse_recusa_tipo_com_mais_de_um_caractere_e_coluna_nao_ascii() {
    assert_eq!(parse_jogada("gg 1 A"), Err(EntradaInvalida::TipoPeca));
    assert_eq!(parse_jogada("g 1 é"), Err(EntradaInvalida::Coluna));
    assert_eq!(parse_jogada("x 9 Z"), Err(EntradaInvalida::TipoPeca));
    assert_eq!(parse_jogada("g 9 Z"), Err(EntradaInvalida::Linha));
}

#[test]
fn mensagens_de_erro() {
    assert_eq!(JogadaInvalida::CelulaOcupada.mensagem(), "Célula ocupada!");
    assert_eq!(
        JogadaInvalida::SemPecas(Peca::Gatao).mensagem(),
        "Você não tem gatões disponíveis!"
    );
    assert!(EntradaInvalida::Formato.mensagem().contains("Formato inválido"));
    assert!(EntradaInvalida::Coluna.mensagem().contains("A a F"));
}

#[test]
fn desenho_do_tabuleiro_vazio_e_exato() {
    let mut esperado =
        String::from("      A          B          C          D          E          F\n");
    for linha in 1..=6 {
        esperado.push_str(&format!("{}|", linha));
        for _ in 0..6 {
            esperado.push_str("          |");
        }
        esperado.push('\n');
    }
    assert_eq!(render_tabuleiro(&Tabuleiro::novo()), esperado);
}

#[test]
fn desenho_de_uma_casa_ocupada() {
    let mut tabuleiro = Tabuleiro::novo();
    tabuleiro.set(0, 0, gato(Peca::Gatao, Jogador::Dois));
    let saida = render_tabuleiro(&tabuleiro);
    let primeira = saida.lines().nth(1).unwrap();
    assert!(primeira.starts_with("1|\x1b[1;34m/ᐠ - ˕ -マ\x1b[0m|"));
}

#[test]
fn partida_recusa_jogada_invalida_sem_mudar_nada() {
    let mut partida = Partida::nova();
    assert_eq!(partida.situacao(), Situacao::AguardaJogada(Jogador::Um));
    let recusada = partida.jogar(&Jogada { peca: Peca::Gatao, linha: 0, coluna: 0 });
    assert_eq!(recusada, Err(JogadaInvalida::SemPecas(Peca::Gatao)));
    assert_eq!(partida.turno(), 0);
    assert_eq!(partida.tabuleiro(), Tabuleiro::novo());
}

#[test]
fn partida_mantem_maos_de_acordo_com_o_tabuleiro() {
    let mut partida = Partida::nova();
    let jogadas = [
        (2, 2),
        (2, 3),
        (3, 2),
        (0, 0),
        (4, 4),
        (5, 0),
        (1, 1),
        (3, 3),
    ];
    for &(linha, coluna) in &jogadas {
        let jogada = Jogada { peca: Peca::Gatinho, linha, coluna };
        if partida.tabuleiro().vazia(linha, coluna) {
            assert_eq!(partida.jogar(&jogada), Ok(None));
        }
        let tabuleiro = partida.tabuleiro();
        let maos = partida.maos();
        for jogador in [Jogador::Um, Jogador::Dois] {
            assert_eq!(maos.ver(jogador).total(), 8);
            assert_eq!(maos.ver(jogador).ativas, tabuleiro.pecas_de(jogador));
        }
    }
    assert!(partida.turno() > 0);
}

#[test]
fn partida_casa_ocupada_e_recusada_e_turno_nao_passa() {
    let mut partida = Partida::nova();
    let jogada = Jogada { peca: Peca::Gatinho, linha: 3, coluna: 3 };
    assert_eq!(partida.jogar(&jogada), Ok(None));
    assert_eq!(partida.da_vez(), Jogador::Dois);
    assert_eq!(partida.jogar(&jogada), Err(JogadaInvalida::CelulaOcupada));
    assert_eq!(partida.da_vez(), Jogador::Dois);
    assert_eq!(
        partida.jogar(&Jogada { peca: Peca::Gatinho, linha: 6, coluna: 0 }),
        Err(JogadaInvalida::ForaDoTabuleiro)
    );
}

#[test]
fn verificar_jogada_testa_limites_antes_da_mao() {
    let tabuleiro = Tabuleiro::novo();
    let sem_nada = Mao { gatinhos: 0, gatoes: 0, ativas: 8 };
    assert_eq!(
        verificar_jogada(&tabuleiro, 6, 6, Peca::Gatao, &sem_nada),
        Err(JogadaInvalida::ForaDoTabuleiro)
    );
}

#[test]
fn turno_que_expulsa_peca_do_adversario_devolve_a_ele() {
    let mut tabuleiro = Tabuleiro::novo();
    let mut maos = Maos::novas();
    maos.de(Jogador::Dois).colocar(Peca::Gatinho);
    tabuleiro.set(5, 5, gato(Peca::Gatinho, Jogador::Dois));
    let jogada = Jogada { peca: Peca::Gatinho, linha: 4, coluna: 4 };
    fluxo_jogo(&mut tabuleiro, &jogada, Jogador::Um, &mut maos);
    assert_eq!(tabuleiro.get(5, 5), None);
    assert_eq!(*maos.ver(Jogador::Dois), Mao::nova());
    assert_eq!(*maos.ver(Jogador::Um), Mao { gatinhos: 7, gatoes: 0, ativas: 1 });
}

#[test]
fn alinhamento_de_gatinhos_em_qualquer_direcao_gera_trio() {
    let mut tabuleiro = Tabuleiro::novo();
    tabuleiro.set(5, 0, gato(Peca::Gatinho, Jogador::Dois));
    tabuleiro.set(4, 1, gato(Peca::Gatinho, Jogador::Dois));
    tabuleiro.set(3, 2, gato(Peca::Gatinho, Jogador::Dois));
    assert_eq!(
        trios_de_gatinhos(&tabuleiro, Jogador::Dois),
        vec![[(5, 0), (4, 1), (3, 2)]]
    );
    assert!(trios_de_gatinhos(&tabuleiro, Jogador::Um).is_empty());
}

#[test]
fn deslocar_nao_da_a_volta_nas_coordenadas_enormes() {
    assert_eq!(deslocar(usize::MAX, 0, (1, 0)), None);
    assert_eq!(deslocar(usize::MAX, usize::MAX, (1, 1)), None);
    assert_eq!(deslocar(0, usize::MAX, (0, 1)), None);
    assert_eq!(deslocar(5, 0, (isize::MIN, 0)), None);
    assert_eq!(deslocar(0, 5, (0, isize::MAX)), None);
}

#[test]
fn jogada_escrita_e_lida_de_volta_em_todas_as_casas() {
    for linha in 0..6usize {
        for coluna in 0..6usize {
            for peca in [Peca::Gatinho, Peca::Gatao] {
                let jogada = Jogada { peca, linha, coluna };
                for primeira in [b'A', b'a'] {
                    let texto = format!(
                        "{} {} {}",
                        peca.simbolo(),
                        linha + 1,
                        (primeira + coluna as u8) as char
                    );
                    assert_eq!(parse_jogada(&texto), Ok(jogada), "{}", texto);
                }
            }
        }
    }
}

fn tabuleiro_em_volta_de_1_1() -> (Tabuleiro, Maos) {
    let mut tabuleiro = Tabuleiro::novo();
    let mut maos = Maos::novas();
    maos.jogador1 = Mao { gatinhos: 5, gatoes: 0, ativas: 3 };
    maos.jogador2 = Mao { gatinhos: 3, gatoes: 1, ativas: 4 };
    tabuleiro.set(1, 1, gato(Peca::Gatao, Jogador::Um));
    tabuleiro.set(0, 0, gato(Peca::Gatinho, Jogador::Dois));
    tabuleiro.set(0, 1, gato(Peca::Gatinho, Jogador::Um));
    tabuleiro.set(1, 0, gato(Peca::Gatinho, Jogador::Dois));
    tabuleiro.set(2, 2, gato(Peca::Gatao, Jogador::Dois));
    tabuleiro.set(1, 2, gato(Peca::Gatinho, Jogador::Um));
    tabuleiro.set(1, 3, gato(Peca::Gatinho, Jogador::Dois));
    (tabuleiro, maos)
}

#[test]
fn boops_em_direcoes_diferentes_comutam() {
    let direcoes: [(isize, isize); 8] =
        [(-1, -1), (-1, 0), (-1, 1), (0, -1), (0, 1), (1, -1), (1, 0), (1, 1)];
    for &d1 in &direcoes {
        for &d2 in &direcoes {
            if d1 == d2 {
                continue;
            }
            let (mut t1, mut m1) = tabuleiro_em_volta_de_1_1();
            aplicar_boop(&mut t1, 1, 1, d1, Peca::Gatao, &mut m1);
            aplicar_boop(&mut t1, 1, 1, d2, Peca::Gatao, &mut m1);
            let (mut t2, mut m2) = tabuleiro_em_volta_de_1_1();
            aplicar_boop(&mut t2, 1, 1, d2, Peca::Gatao, &mut m2);
            aplicar_boop(&mut t2, 1, 1, d1, Peca::Gatao, &mut m2);
            assert_eq!(t1, t2, "{:?} {:?}", d1, d2);
            assert_eq!(m1, m2, "{:?} {:?}", d1, d2);
        }
    }
    // Os pares mexem de fato: (-1, -1) e (-1, 0) tiram do tabuleiro uma peca
    // de cada jogador, e cada uma volta para o seu dono.
    let (mut t, mut m) = tabuleiro_em_volta_de_1_1();
    aplicar_boop(&mut t, 1, 1, (-1, -1), Peca::Gatao, &mut m);
    aplicar_boop(&mut t, 1, 1, (-1, 0), Peca::Gatao, &mut m);
    assert_eq!(t.get(0, 0), None);
    assert_eq!(t.get(0, 1), None);
    assert_eq!(*m.ver(Jogador::Um), Mao { gatinhos: 6, gatoes: 0, ativas: 2 });
    assert_eq!(*m.ver(Jogador::Dois), Mao { gatinhos: 4, gatoes: 1, ativas: 3 });
}

#[test]
fn boop_so_muda_casas_ao_alcance() {
    let (mut antes, maos0) = tabuleiro_em_volta_de_1_1();
    // (3, 2) fica a um salto de cavalo da peca colocada.
    antes.set(3, 2, gato(Peca::Gatinho, Jogador::Um));
    let mut depois = antes.clone();
    let mut maos = maos0;
    boop_nas_oito_direcoes(&mut depois, 1, 1, Peca::Gatao, &mut maos);
    for l in 0..6isize {
        for c in 0..6isize {
            let (dl, dc) = (l - 1, c - 1);
            let ao_alcance = dl.abs() <= 2
                && dc.abs() <= 2
                && (dl, dc) != (0, 0)
                && (dl == 0 || dc == 0 || dl == dc || dl == -dc);
            if !ao_alcance {
                assert_eq!(
                    depois.get(l as usize, c as usize),
                    antes.get(l as usize, c as usize),
                    "({}, {})",
                    l,
                    c
                );
            }
        }
    }
    assert_eq!(depois.get(3, 2), gato(Peca::Gatinho, Jogador::Um));
    assert_eq!(depois.get(2, 4), None);
    assert_eq!(depois.get(1, 1), gato(Peca::Gatao, Jogador::Um));
    // Casas ao alcance mudaram: (2, 2) foi para (3, 3) e as vizinhas da
    // borda sairam; (1, 2) ficou, encostada em (1, 3).
    assert_eq!(depois.get(3, 3), gato(Peca::Gatao, Jogador::Dois));
    assert_eq!(depois.get(2, 2), None);
    assert_eq!(depois.get(0, 0), None);
    assert_eq!(depois.get(0, 1), None);
    assert_eq!(depois.get(1, 0), None);
    assert_eq!(depois.get(1, 2), gato(Peca::Gatinho, Jogador::Um));
}

#[test]
fn turno_nao_deixa_trio_de_nenhum_jogador() {
    // O gatao do Jogador 1 em (2, 2) empurra (2, 3) para (2, 4), alinhando
    // tres gatinhos do Jogador 2 na coluna 4; a graduacao do fim do turno os
    // tira do tabuleiro.
    let mut tabuleiro = Tabuleiro::novo();
    let mut maos = Maos::novas();
    tabuleiro.set(1, 4, gato(Peca::Gatinho, Jogador::Dois));
    tabuleiro.set(3, 4, gato(Peca::Gatinho, Jogador::Dois));
    tabuleiro.set(2, 3, gato(Peca::Gatinho, Jogador::Dois));
    maos.jogador2 = Mao { gatinhos: 5, gatoes: 0, ativas: 3 };
    maos.jogador1 = Mao { gatinhos: 7, gatoes: 1, ativas: 0 };
    let jogada = Jogada { peca: Peca::Gatao, linha: 2, coluna: 2 };
    assert_eq!(
        verificar_jogada(&tabuleiro, 2, 2, Peca::Gatao, maos.ver(Jogador::Um)),
        Ok(())
    );
    fluxo_jogo(&mut tabuleiro, &jogada, Jogador::Um, &mut maos);
    assert!(trios_de_gatinhos(&tabuleiro, Jogador::Um).is_empty());
    assert!(trios_de_gatinhos(&tabuleiro, Jogador::Dois).is_empty());
    assert_eq!(tabuleiro.pecas_de(Jogador::Dois), 0);
    assert_eq!(*maos.ver(Jogador::Dois), Mao { gatinhos: 5, gatoes: 3, ativas: 0 });
}

#[test]
fn ha_trio_exatamente_quando_ha_tres_gatinhos_alinhados() {
    let mut tabuleiro = Tabuleiro::novo();
    tabuleiro.set(3, 0, gato(Peca::Gatinho, Jogador::Um));
    tabuleiro.set(4, 1, gato(Peca::Gatinho, Jogador::Um));
    assert!(trios_de_gatinhos(&tabuleiro, Jogador::Um).is_empty());
    tabuleiro.set(5, 2, gato(Peca::Gatinho, Jogador::Um));
    assert_eq!(
        trios_de_gatinhos(&tabuleiro, Jogador::Um),
        vec![[(3, 0), (4, 1), (5, 2)]]
    );
    // Um gatao no meio desfaz o alinhamento de gatinhos.
    tabuleiro.set(4, 1, gato(Peca::Gatao, Jogador::Um));
    assert!(trios_de_gatinhos(&tabuleiro, Jogador::Um).is_empty());
    // Tres gatinhos do outro jogador tambem nao contam.
    tabuleiro.set(4, 1, gato(Peca::Gatinho, Jogador::Dois));
    assert!(trios_de_gatinhos(&tabuleiro, Jogador::Um).is_empty());
}
