//! Boop: jogo de tabuleiro para dois jogadores, com as regras verificadas.
//!
//! - [`model`]: dados e regras do jogo (tabuleiro, maos, boop, graduacao,
//!   vitoria);
//! - [`view`]: interpretacao do texto digitado e desenho do tabuleiro em texto;
//! - [`controller`]: ordem de um turno e andamento de uma partida.
pub mod controller;
pub mod model;
pub mod view;

pub use model::tipos::{
    deslocar, Celula, Gato, Jogador, Mao, Maos, Peca, Tabuleiro, AMARELO, AZUL,
    DIRECOES_BOOP, DIRECOES_LINHA, PECAS_POR_JOGADOR, RESET, TAMANHO_TABULEIRO, TAMANHO_TRIO,
    VERMELHO,
};
