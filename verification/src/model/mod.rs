//! Dados e regras do jogo, sem nenhuma entrada ou saida.
pub mod graduar;
pub mod jogada;
pub mod tipos;
pub mod vitoria;
