# boop

Regras do jogo de tabuleiro Boop (6x6, dois jogadores, gatinhos e gatões),
escritas em Rust e verificadas com Verus.

- `src/model/tipos.rs`: peças, jogadores, tabuleiro, mãos e as contas de peças.
- `src/model/jogada.rs`: validação da jogada, colocação e efeito boop.
- `src/model/graduar.rs`: varredura de trios de gatinhos e graduação.
- `src/model/vitoria.rs`: vitória (cama cheia ou trio de gatões) e empate.
- `src/view/entrada.rs`: interpretação do texto `tipo linha coluna`.
- `src/view/tabuleiro.rs`: desenho do tabuleiro em texto.
- `src/controller/turno.rs`: ordem das regras em um turno.
- `src/controller/jogo.rs`: andamento de uma partida (de quem é a vez, turno
  pulado, fim de jogo).
- `app/`: o programa de terminal, que lê a entrada e desenha a tela.

Cada função pública diz no contrato exatamente o que devolve e o que muda. As
leis do jogo são funções de prova em `src/`: cada jogador sempre com 8 peças e
peças ativas iguais às peças no tabuleiro; o boop só mexe nas casas ao seu
alcance, e boops em direções diferentes comutam; trios sem casa repetida, há
trio exatamente quando há três gatinhos alinhados, e nenhum trio resta depois
de graduar nem ao fim de um turno; trio de gatões em qualquer direção vence; e
toda jogada escrita como `tipo linha coluna` é lida de volta como a mesma
jogada.
