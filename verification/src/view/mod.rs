//! Interpretacao da entrada do jogador e desenho do tabuleiro em texto.
pub mod entrada;
pub mod tabuleiro;
