//! Regras de negócio do sistema de estoque de uma mercearia: cadastro de
//! produtos, movimentações de entrada e saída, autenticação por senha e o
//! estado das telas da aplicação.

pub mod texto;
pub mod dominio;
pub mod datas;
pub mod senha;
pub mod estoque;
pub mod autenticacao;
pub mod ui;
pub mod carga;
pub mod banco;
