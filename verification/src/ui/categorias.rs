//! A tela de categorias: lista, cadastro, edição e exclusão.

use vstd::prelude::*;

use crate::dominio::Categoria;
use crate::texto::{aparado, aparar};

use super::{aviso_eh, App};

verus! {

/// O estado da tela de categorias.
pub struct CategoriasState {
    pub categorias: Vec<Categoria>,
    pub nome_form: String,
    pub editando_id: Option<i64>,
    pub confirmar_delete_id: Option<i64>,
    pub confirmando: bool,
    pub erro: Option<String>,
    pub carregado: bool,
}

impl CategoriasState {
    /// O estado antes de a tela ser aberta.
    pub open spec fn inicial(self) -> bool {
        &&& self.categorias@.len() == 0
        &&& self.nome_form@ == Seq::<char>::empty()
        &&& self.editando_id is None
        &&& self.confirmar_delete_id is None
        &&& !self.confirmando
        &&& self.erro is None
        &&& !self.carregado
    }
}

impl Default for CategoriasState {
    fn default() -> (r: Self)
        ensures
            r.inicial(),
    {
        CategoriasState {
            categorias: Vec::new(),
            nome_form: String::new(),
            editando_id: None,
            confirmar_delete_id: None,
            confirmando: false,
            erro: None,
            carregado: false,
        }
    }
}

/// O que salvar uma categoria manda gravar.
#[derive(Debug)]
pub enum AcaoCategoria {
    Inserir { nome: String },
    Atualizar { id: i64, nome: String },
}

impl AcaoCategoria {
    /// O nome que a ação grava.
    pub open spec fn nome_gravado(self) -> Seq<char> {
        match self {
            AcaoCategoria::Inserir { nome } => nome@,
            AcaoCategoria::Atualizar { nome, .. } => nome@,
        }
    }
}

impl App {
    /// O primeiro passo de salvar: com o nome do formulário sem espaços nas
    /// pontas, atualiza a categoria em edição ou insere uma nova; um nome vazio
    /// é recusado com uma mensagem.
    pub fn preparar_salvar_categoria(&mut self) -> (r: Option<AcaoCategoria>)
        ensures
            ({
                let nome = aparado(old(self).categorias_state.nome_form@);
                if nome.len() == 0 {
                    &&& r is None
                    &&& final(self).categorias_state.erro matches Some(e) && e@
                        == "Nome não pode ser vazio."@
                    &&& *final(self) == App {
                        categorias_state: CategoriasState {
                            erro: final(self).categorias_state.erro,
                            ..old(self).categorias_state
                        },
                        ..*old(self)
                    }
                } else {
                    &&& *final(self) == *old(self)
                    &&& r matches Some(a)
                    &&& a.nome_gravado() == nome
                    &&& match old(self).categorias_state.editando_id {
                        Some(id) => a matches AcaoCategoria::Atualizar { id: i, .. } && i == id,
                        None => a is Inserir,
                    }
                }
            }),
    {
        let nome = aparar(self.categorias_state.nome_form.as_str());
        if nome.as_str().is_empty() {
            self.categorias_state.erro = Some(String::from_str("Nome não pode ser vazio."));
            return None;
        }
        match self.categorias_state.editando_id {
            Some(id) => Some(AcaoCategoria::Atualizar { id, nome }),
            None => Some(AcaoCategoria::Inserir { nome }),
        }
    }

    /// Aplica o resultado da gravação de `acao`: em caso de sucesso avisa,
    /// sai da edição e limpa o formulário (a lista deve ser carregada de
    /// novo); numa falha mostra a mensagem dela no formulário.
    pub fn concluir_salvar_categoria(&mut self, acao: &AcaoCategoria, resultado: Result<(), String>)
        ensures
            (match resultado {
                Ok(_) => {
                    &&& aviso_eh(
                        *final(self),
                        if acao is Atualizar {
                            "Categoria atualizada."@
                        } else {
                            "Categoria adicionada."@
                        },
                        false,
                    )
                    &&& final(self).categorias_state.nome_form@ == Seq::<char>::empty()
                    &&& final(self).categorias_state.erro is None
                    &&& final(self).categorias_state.editando_id == if acao is Atualizar {
                        None
                    } else {
                        old(self).categorias_state.editando_id
                    }
                    &&& *final(self) == App {
                        feedback: final(self).feedback,
                        categorias_state: CategoriasState {
                            nome_form: final(self).categorias_state.nome_form,
                            erro: final(self).categorias_state.erro,
                            editando_id: final(self).categorias_state.editando_id,
                            ..old(self).categorias_state
                        },
                        ..*old(self)
                    }
                },
                Err(m) => {
                    &&& final(self).categorias_state.erro == Some(m)
                    &&& *final(self) == App {
                        categorias_state: CategoriasState {
                            erro: Some(m),
                            ..old(self).categorias_state
                        },
                        ..*old(self)
                    }
                },
            }),
    {
        match resultado {
            Ok(_) => {
                match acao {
                    AcaoCategoria::Atualizar { .. } => {
                        self.set_feedback("Categoria atualizada.", false);
                        self.categorias_state.editando_id = None;
                    },
                    AcaoCategoria::Inserir { .. } => {
                        self.set_feedback("Categoria adicionada.", false);
                    },
                }
                self.categorias_state.nome_form = String::new();
                self.categorias_state.erro = None;
            },
            Err(m) => {
                self.categorias_state.erro = Some(m);
            },
        }
    }

    /// Aplica o resultado de excluir uma categoria: avisa do sucesso, ou de
    /// que a categoria ainda tem produtos.
    pub fn concluir_excluir_categoria(&mut self, resultado: Result<(), String>)
        ensures
            (match resultado {
                Ok(_) => aviso_eh(*final(self), "Categoria excluída."@, false),
                Err(_) => aviso_eh(*final(self), "Existem produtos nessa categoria."@, true),
            }),
            *final(self) == (App { feedback: final(self).feedback, ..*old(self) }),
    {
        match resultado {
            Ok(_) => self.set_feedback("Categoria excluída.", false),
            Err(_) => self.set_feedback("Existem produtos nessa categoria.", true),
        }
    }
}

} // verus!
