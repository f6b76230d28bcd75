# mercearia

Gestão de estoque de uma mercearia: produtos, categorias, movimentações de
entrada e saída, usuários com perfis de acesso (dona e funcionário) e
relatórios.

- `src/` — a biblioteca, verificada com Verus: as regras do estoque
  (`estoque`), a autenticação (`senha`, `autenticacao`), os dados (`dominio`,
  `datas`, `banco`, `carga`) e o estado e as decisões de cada tela (`ui`).
- `app/` — o programa: a janela egui, o banco SQLite e o que as regras não
  representam (preços e lucros em ponto flutuante, o relógio).
- `tests/` — testes da biblioteca.

Acesso padrão: login `admin`, senha `admin123` (perfil Dona).
