use boop::model::jogada::Jogada;
use boop::model::tipos::Peca;
use boop::view::entrada::{parse_jogada, EntradaInvalida};

#[test]
fn parse_entrada_valida_basica() {
    let jogada = parse_jogada("g 1 A").unwrap();
    assert_eq!(
        jogada,
        Jogada {
            peca: Peca::Gatinho,
            linha: 0,
            coluna: 0,
        }
    );
}

#[test]
fn parse_entrada_valida_gatao_extremos() {
    let jogada = parse_jogada("G 6 F").unwrap();
    assert_eq!(
        jogada,
        Jogada {
            peca: Peca::Gatao,
            linha: 5,
            coluna: 5,
        }
    );
}

#[test]
fn parse_entrada_valida_coluna_minuscula() {
    let jogada = parse_jogada("g 3 c").unwrap();
    assert_eq!(
        jogada,
        Jogada {
            peca: Peca::Gatinho,
            linha: 2,
            coluna: 2,
        }
    );
}

#[test]
fn parse_entrada_valida_espacos_extras() {
    let jogada = parse_jogada("  g   2    B  ").unwrap();
    assert_eq!(
        jogada,
        Jogada {
            peca: Peca::Gatinho,
            linha: 1,
            coluna: 1,
        }
    );
}

#[test]
fn parse_entrada_valida_com_quebra_de_linha() {
    assert!(parse_jogada("g 1 A\n").is_ok());
    assert!(parse_jogada("g 1 A\r\n").is_ok());
}

#[test]
fn parse_entrada_vazia_e_erro_de_formato() {
    assert_eq!(parse_jogada(""), Err(EntradaInvalida::Formato));
}

#[test]
fn parse_entrada_com_dois_campos_e_erro_de_formato() {
    assert_eq!(parse_jogada("g 1"), Err(EntradaInvalida::Formato));
}

#[test]
fn parse_entrada_com_quatro_campos_e_erro_de_formato() {
    assert_eq!(parse_jogada("g 1 A extra"), Err(EntradaInvalida::Formato));
}

#[test]
fn parse_tipo_de_peca_invalido() {
    assert_eq!(parse_jogada("x 1 A"), Err(EntradaInvalida::TipoPeca));
}

#[test]
fn parse_linha_zero_e_invalida() {
    assert_eq!(parse_jogada("g 0 A"), Err(EntradaInvalida::Linha));
}

#[test]
fn parse_linha_sete_e_invalida() {
    assert_eq!(parse_jogada("g 7 A"), Err(EntradaInvalida::Linha));
}

#[test]
fn parse_linha_nao_numerica_e_invalida() {
    assert_eq!(parse_jogada("g abc A"), Err(EntradaInvalida::Linha));
}

#[test]
fn parse_coluna_fora_do_intervalo_e_invalida() {
    assert_eq!(parse_jogada("g 1 Z"), Err(EntradaInvalida::Coluna));
}

#[test]
fn parse_coluna_com_mais_de_um_caractere_e_invalida() {
    assert_eq!(parse_jogada("g 1 AB"), Err(EntradaInvalida::Coluna));
}
