//! Ordem das regras em um turno e andamento de uma partida inteira.
pub mod jogo;
pub mod turno;
