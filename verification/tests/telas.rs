use mercearia::dominio::{Categoria, DataHora, Movimentacao, PerfilUsuario, Produto, TipoMovimentacao, Usuario};
use mercearia::senha::hash_senha;
use mercearia::estoque::{registrar_entrada, registrar_saida};
use mercearia::ui::categorias::{AcaoCategoria, CategoriasState};
use mercearia::ui::dashboard::DashboardState;
use mercearia::ui::login::LoginState;
use mercearia::ui::movimentacoes::{modos_disponiveis, rotulo_produto, ModoMovimentacao, MovimentacoesState};
use mercearia::estoque::ComparacaoPrecos;
use mercearia::ui::produtos::{
    indices_filtrados, inteiro_ou_zero, rotulo_categoria, AcaoProduto, LeituraPrecos, ModoProdutos,
    ProdutoForm, ProdutosState,
};
use mercearia::ui::relatorios::{
    deficit, filtro_ano_mes, rotulo_curto, somas_cabem_exec, total_por_tipo, AbaRelatorio,
    RelatoriosState,
};
use mercearia::ui::usuarios::{novo_usuario, pode_excluir, ModoUsuarios, UsuarioForm, UsuariosState};
use mercearia::ui::{passo_confirmacao, App, Tela};
use mercearia::autenticacao::autenticar;

fn app() -> App {
    App::new(RelatoriosState::new(2025, 6))
}

fn dona() -> Usuario {
    Usuario {
        id: 1,
        nome: "Administradora".to_string(),
        login: "admin".to_string(),
        senha_hash: hash_senha("admin123"),
        perfil: PerfilUsuario::Dona,
    }
}

fn funcionario(id: i64) -> Usuario {
    Usuario {
        id,
        nome: "Caio".to_string(),
        login: "caio".to_string(),
        senha_hash: hash_senha("caio1234"),
        perfil: PerfilUsuario::Funcionario,
    }
}

fn produto(id: i64, nome: &str, codigo: &str, categoria_id: i64, minimo: i64, atual: i64) -> Produto {
    Produto {
        id,
        nome: nome.to_string(),
        codigo_de_barras: codigo.to_string(),
        categoria_id,
        categoria_nome: String::new(),
        estoque_minimo: minimo,
        quantidade_atual: atual,
    }
}

#[test]
fn estado_inicial() {
    let a = app();
    assert_eq!(a.tela_atual, Tela::Login);
    assert!(a.usuario_atual.is_none());
    assert!(!a.dark_mode);
    assert!(a.feedback.is_none());
    assert_eq!(a.relatorios_state.ano, 2025);
    assert_eq!(a.relatorios_state.mes, 6);
    assert_eq!(a.relatorios_state.aba, AbaRelatorio::EstoqueBaixo);
    assert_eq!(a.usuarios_state.modo, ModoUsuarios::Lista);
    assert_eq!(a.produtos_state.modo, ModoProdutos::Lista);
    assert_eq!(a.movimentacoes_state.modo, ModoMovimentacao::Historico);
    let l = LoginState::default();
    assert!(l.login.is_empty() && l.senha.is_empty() && l.erro.is_none());
    let d = DashboardState::default();
    assert!(!d.carregado && d.estoque_baixo.is_empty());
    let c = CategoriasState::default();
    assert!(!c.carregado && c.editando_id.is_none());
    let m = MovimentacoesState::default();
    assert_eq!(m.produto_id_form, 0);
    let u = UsuariosState::default();
    assert!(u.form.nome.is_empty());
    let p = ProdutosState::default();
    assert_eq!(p.filtro_categoria_id, 0);
    assert_eq!(ModoUsuarios::default(), ModoUsuarios::Lista);
}

#[test]
fn navegacao_recarrega_a_tela() {
    let mut a = app();
    a.dashboard_state.carregado = true;
    a.produtos_state.carregado = true;
    a.on_navigate(Tela::Dashboard);
    assert_eq!(a.tela_atual, Tela::Dashboard);
    assert!(!a.dashboard_state.carregado);
    assert!(a.produtos_state.carregado);
    a.relatorios_state.carregado_estoque = true;
    a.relatorios_state.carregado_mensal = true;
    a.on_navigate(Tela::Relatorios);
    assert!(!a.relatorios_state.carregado_estoque && !a.relatorios_state.carregado_mensal);
    a.on_navigate(Tela::Login);
    assert_eq!(a.tela_atual, Tela::Login);
}

#[test]
fn menu_por_perfil() {
    let mut a = app();
    a.usuario_atual = Some(funcionario(2));
    assert!(!a.eh_dona());
    assert_eq!(
        a.itens_navegacao(),
        vec![Tela::Dashboard, Tela::Produtos, Tela::Categorias, Tela::Movimentacoes]
    );
    a.usuario_atual = Some(dona());
    assert!(a.eh_dona());
    assert_eq!(a.itens_navegacao().len(), 6);
    assert_eq!(a.itens_navegacao()[4], Tela::Relatorios);
    assert_eq!(a.itens_navegacao()[5], Tela::Usuarios);
    assert_eq!(
        modos_disponiveis(false),
        vec![ModoMovimentacao::Historico, ModoMovimentacao::RegistrarEntrada]
    );
    assert_eq!(modos_disponiveis(true).len(), 3);
    a.sair();
    assert!(a.usuario_atual.is_none());
    assert_eq!(a.tela_atual, Tela::Login);
}

#[test]
fn fluxo_de_login() {
    let mut a = app();
    a.login_state.login = "  admin ".to_string();
    a.login_state.senha = "admin123".to_string();
    let (login, senha) = a.credenciais_login();
    assert_eq!(login, "admin");
    assert_eq!(senha, "admin123");
    a.concluir_login(Ok(None));
    assert_eq!(a.login_state.erro.as_deref(), Some("Login ou senha incorretos."));
    a.concluir_login(Err("disco cheio".to_string()));
    assert_eq!(a.login_state.erro.as_deref(), Some("Erro: disco cheio"));
    let u = autenticar(Some(dona()), &senha);
    a.concluir_login(Ok(u));
    assert_eq!(a.tela_atual, Tela::Dashboard);
    assert!(a.login_state.login.is_empty() && a.login_state.erro.is_none());
    assert_eq!(a.usuario_atual.as_ref().map(|u| u.id), Some(1));
}

#[test]
fn avisos() {
    let mut a = app();
    a.set_feedback("Feito.", false);
    assert_eq!(a.feedback, Some(("Feito.".to_string(), false)));
    a.concluir_excluir_categoria(Err("FK".to_string()));
    assert_eq!(a.feedback, Some(("Existem produtos nessa categoria.".to_string(), true)));
    a.concluir_excluir_categoria(Ok(()));
    assert_eq!(a.feedback, Some(("Categoria excluída.".to_string(), false)));
    a.concluir_excluir_produto(Err(String::new()));
    assert_eq!(a.feedback, Some(("Não foi possível excluir o produto.".to_string(), true)));
    a.concluir_excluir_produto(Ok(()));
    assert_eq!(a.feedback, Some(("Produto excluído.".to_string(), false)));
}

#[test]
fn salvar_categoria() {
    let mut a = app();
    a.categorias_state.nome_form = "   ".to_string();
    assert!(a.preparar_salvar_categoria().is_none());
    assert_eq!(a.categorias_state.erro.as_deref(), Some("Nome não pode ser vazio."));
    a.categorias_state.nome_form = " Bebidas ".to_string();
    match a.preparar_salvar_categoria() {
        Some(AcaoCategoria::Inserir { nome }) => assert_eq!(nome, "Bebidas"),
        outra => panic!("ação inesperada: {:?}", outra),
    }
    a.categorias_state.editando_id = Some(4);
    let acao = a.preparar_salvar_categoria().unwrap();
    match &acao {
        AcaoCategoria::Atualizar { id, nome } => {
            assert_eq!(*id, 4);
            assert_eq!(nome, "Bebidas");
        }
        outra => panic!("ação inesperada: {:?}", outra),
    }
    a.concluir_salvar_categoria(&acao, Err("UNIQUE".to_string()));
    assert_eq!(a.categorias_state.erro.as_deref(), Some("UNIQUE"));
    a.concluir_salvar_categoria(&acao, Ok(()));
    assert_eq!(a.feedback, Some(("Categoria atualizada.".to_string(), false)));
    assert!(a.categorias_state.editando_id.is_none());
    assert!(a.categorias_state.nome_form.is_empty());
    assert!(a.categorias_state.erro.is_none());
    a.concluir_salvar_categoria(&AcaoCategoria::Inserir { nome: "X".to_string() }, Ok(()));
    assert_eq!(a.feedback, Some(("Categoria adicionada.".to_string(), false)));
    let _ = Categoria { id: 1, nome: "Bebidas".to_string() };
}

#[test]
fn busca_de_produtos() {
    let ps = vec![
        produto(1, "Leite Integral", "7890000000001", 1, 5, 10),
        produto(2, "Arroz Branco", "7890000000002", 2, 5, 10),
        produto(3, "LEITE Desnatado", "7890000000003", 1, 5, 10),
    ];
    assert_eq!(indices_filtrados(&ps, "", 0), vec![0, 1, 2]);
    assert_eq!(indices_filtrados(&ps, "leite", 0), vec![0, 2]);
    assert_eq!(indices_filtrados(&ps, "LEITE", 0), vec![0, 2]);
    assert_eq!(indices_filtrados(&ps, "0002", 0), vec![1]);
    assert_eq!(indices_filtrados(&ps, "", 2), vec![1]);
    assert_eq!(indices_filtrados(&ps, "leite", 2), Vec::<usize>::new());
}

#[test]
fn formulario_de_produto() {
    let mut f = ProdutoForm::default();
    f.nome = " Café ".to_string();
    f.codigo_de_barras = "123".to_string();
    assert_eq!(f.campos_obrigatorios(), Err("Preencha todos os campos obrigatórios.".to_string()));
    f.categoria_id = 3;
    assert_eq!(f.campos_obrigatorios(), Ok(("Café".to_string(), "123".to_string())));
    assert_eq!(inteiro_ou_zero(" 12 "), 12);
    assert_eq!(inteiro_ou_zero("abc"), 0);
    assert_eq!(inteiro_ou_zero(""), 0);
    let mut a = app();
    assert_eq!(a.produtos_state.id_em_edicao(), 0);
    let p = produto(8, "Café", "123", 3, 4, 20);
    a.abrir_edicao(&p, "6.80".to_string(), "10.99".to_string());
    assert_eq!(a.produtos_state.modo, ModoProdutos::Edicao);
    assert_eq!(a.produtos_state.form.estoque_minimo, "4");
    assert_eq!(a.produtos_state.form.quantidade_atual, "20");
    assert_eq!(a.produtos_state.form.preco_custo, "6.80");
    assert_eq!(a.produtos_state.id_em_edicao(), 8);
    assert_eq!(inteiro_ou_zero(&a.produtos_state.form.estoque_minimo), 4);
    a.concluir_salvar_produto(8, Ok(()));
    assert_eq!(a.feedback, Some(("Produto atualizado com sucesso.".to_string(), false)));
    assert_eq!(a.produtos_state.modo, ModoProdutos::Lista);
    a.concluir_salvar_produto(0, Ok(()));
    assert_eq!(a.feedback, Some(("Produto cadastrado com sucesso.".to_string(), false)));
    a.concluir_salvar_produto(0, Err("falhou".to_string()));
    assert_eq!(a.produtos_state.erro_form.as_deref(), Some("falhou"));
}

#[test]
fn registro_de_movimentacao() {
    let mut a = app();
    a.usuario_atual = Some(funcionario(5));
    assert!(a.preparar_registro(TipoMovimentacao::Entrada).is_none());
    assert_eq!(a.movimentacoes_state.erro_form.as_deref(), Some("Selecione um produto."));
    a.movimentacoes_state.produto_id_form = 7;
    a.movimentacoes_state.quantidade_form = "dez".to_string();
    assert!(a.preparar_registro(TipoMovimentacao::Entrada).is_none());
    assert_eq!(a.movimentacoes_state.erro_form.as_deref(), Some("Quantidade inválida."));
    a.movimentacoes_state.quantidade_form = " 10 ".to_string();
    a.movimentacoes_state.motivo_form = " reposição ".to_string();
    let p = a.preparar_registro(TipoMovimentacao::Saida).unwrap();
    assert_eq!(p.tipo, TipoMovimentacao::Saida);
    assert_eq!(p.produto_id, 7);
    assert_eq!(p.quantidade, 10);
    assert_eq!(p.motivo, "reposição");
    assert_eq!(p.usuario_id, 5);
    assert_eq!(p.usuario_nome, "Caio");
    a.concluir_registro(Err("Estoque insuficiente (disponível: 3)".to_string()));
    assert_eq!(a.movimentacoes_state.erro_form.as_deref(), Some("Estoque insuficiente (disponível: 3)"));
    a.movimentacoes_state.modo = ModoMovimentacao::RegistrarSaida;
    a.concluir_registro(Ok(()));
    assert_eq!(a.feedback, Some(("Movimentação registrada com sucesso.".to_string(), false)));
    assert_eq!(a.movimentacoes_state.produto_id_form, 0);
    assert!(a.movimentacoes_state.quantidade_form.is_empty());
    assert!(a.movimentacoes_state.erro_form.is_none());
    assert_eq!(a.movimentacoes_state.modo, ModoMovimentacao::Historico);
    assert_eq!(rotulo_produto(&produto(1, "Leite", "1", 1, 1, 12)), "Leite (12 un.)");
}

#[test]
fn novo_usuario_e_exclusao() {
    let mut a = app();
    a.usuarios_state.form = UsuarioForm {
        nome: " ".to_string(),
        login: "x".to_string(),
        senha: "123456".to_string(),
        senha_confirma: "123456".to_string(),
    };
    assert!(a.preparar_novo_usuario().is_none());
    assert_eq!(a.usuarios_state.erro_form.as_deref(), Some("Nome é obrigatório."));
    a.usuarios_state.form.nome = "Caio".to_string();
    a.usuarios_state.form.login = "  ".to_string();
    assert!(a.preparar_novo_usuario().is_none());
    assert_eq!(a.usuarios_state.erro_form.as_deref(), Some("Login é obrigatório."));
    a.usuarios_state.form.login = " caio ".to_string();
    a.usuarios_state.form.senha = "12345".to_string();
    assert!(a.preparar_novo_usuario().is_none());
    assert_eq!(
        a.usuarios_state.erro_form.as_deref(),
        Some("Senha deve ter pelo menos 6 caracteres.")
    );
    a.usuarios_state.form.senha = "1234567".to_string();
    assert!(a.preparar_novo_usuario().is_none());
    assert_eq!(a.usuarios_state.erro_form.as_deref(), Some("As senhas não coincidem."));
    a.usuarios_state.form.senha_confirma = "1234567".to_string();
    let (nome, login) = a.preparar_novo_usuario().unwrap();
    assert_eq!(nome, "Caio");
    assert_eq!(login, "caio");
    assert!(!a.conferir_login_livre(Ok(true)));
    assert_eq!(a.usuarios_state.erro_form.as_deref(), Some("Este login já está em uso."));
    assert!(!a.conferir_login_livre(Err("bloqueado".to_string())));
    assert_eq!(a.usuarios_state.erro_form.as_deref(), Some("Erro: bloqueado"));
    assert!(a.conferir_login_livre(Ok(false)));
    let novo = novo_usuario(nome, login, "1234567");
    assert_eq!(novo.perfil, PerfilUsuario::Funcionario);
    assert_eq!(novo.id, 0);
    assert!(autenticar(Some(novo), "1234567").is_some());
    a.usuarios_state.modo = ModoUsuarios::Novo;
    a.usuarios_state.carregado = true;
    a.concluir_novo_usuario(Err("UNIQUE".to_string()));
    assert_eq!(a.usuarios_state.erro_form.as_deref(), Some("Erro ao criar usuário: UNIQUE"));
    a.concluir_novo_usuario(Ok(()));
    assert_eq!(a.feedback, Some(("Usuário criado com sucesso!".to_string(), false)));
    assert_eq!(a.usuarios_state.modo, ModoUsuarios::Lista);
    assert!(a.usuarios_state.form.senha.is_empty());
    assert!(!a.usuarios_state.carregado);
    assert!(pode_excluir(&funcionario(5), 1));
    assert!(!pode_excluir(&funcionario(5), 5));
    assert!(!pode_excluir(&dona(), 5));
    a.usuarios_state.confirmar_delete_id = Some(5);
    a.concluir_excluir_usuario(Err("x".to_string()));
    assert_eq!(a.feedback, Some(("Erro: x".to_string(), true)));
    assert!(a.usuarios_state.confirmar_delete_id.is_none());
    a.usuarios_state.carregado = true;
    a.concluir_excluir_usuario(Ok(()));
    assert_eq!(a.feedback, Some(("Usuário excluído.".to_string(), false)));
    assert!(!a.usuarios_state.carregado);
}

fn mov(tipo: TipoMovimentacao, quantidade: i64) -> Movimentacao {
    Movimentacao {
        id: 0,
        tipo,
        quantidade,
        data_hora: DataHora { ano: 2025, mes: 1, dia: 2, hora: 3, minuto: 4, segundo: 5 },
        motivo: String::new(),
        produto_id: 1,
        produto_nome: String::new(),
        usuario_id: 1,
        usuario_nome: String::new(),
    }
}

#[test]
fn relatorio_mensal_e_deficit() {
    let movs = vec![
        mov(TipoMovimentacao::Entrada, 10),
        mov(TipoMovimentacao::Saida, 3),
        mov(TipoMovimentacao::Entrada, 5),
        mov(TipoMovimentacao::Saida, 4),
    ];
    assert_eq!(total_por_tipo(&movs, TipoMovimentacao::Entrada), 15);
    assert_eq!(total_por_tipo(&movs, TipoMovimentacao::Saida), 7);
    assert_eq!(total_por_tipo(&Vec::new(), TipoMovimentacao::Saida), 0);
    assert_eq!(deficit(&produto(1, "a", "1", 1, 10, 4)), 6);
    assert_eq!(deficit(&produto(1, "a", "1", 1, 10, 10)), 0);
    assert_eq!(deficit(&produto(1, "a", "1", 1, 10, 15)), 0);
    assert_eq!(rotulo_curto("Leite 1L"), "Leite 1L");
    assert_eq!(rotulo_curto("Biscoito Recheado Chocolate"), "Biscoito Reche…");
    assert_eq!(rotulo_curto("Sabonete Dove 90"), "Sabonete Dove 90");
    assert_eq!(filtro_ano_mes(2024, 3), ("2024".to_string(), "03".to_string()));
    assert_eq!(filtro_ano_mes(987, 12), ("0987".to_string(), "12".to_string()));
}

#[test]
fn somas_que_cabem() {
    let movs = vec![mov(TipoMovimentacao::Entrada, i64::MAX), mov(TipoMovimentacao::Saida, 1)];
    assert!(somas_cabem_exec(&movs, TipoMovimentacao::Entrada));
    assert!(somas_cabem_exec(&movs, TipoMovimentacao::Saida));
    let demais = vec![mov(TipoMovimentacao::Entrada, i64::MAX), mov(TipoMovimentacao::Entrada, 1)];
    assert!(!somas_cabem_exec(&demais, TipoMovimentacao::Entrada));
    assert!(somas_cabem_exec(&demais, TipoMovimentacao::Saida));
}

#[test]
fn navegar_duas_vezes_e_o_mesmo_que_uma() {
    let mut a = app();
    a.on_navigate(Tela::Categorias);
    a.categorias_state.carregado = true;
    a.on_navigate(Tela::Usuarios);
    let (tela1, cat1, usr1) = (a.tela_atual, a.categorias_state.carregado, a.usuarios_state.carregado);
    a.on_navigate(Tela::Usuarios);
    assert_eq!((a.tela_atual, a.categorias_state.carregado, a.usuarios_state.carregado), (tela1, cat1, usr1));
    assert!(cat1);
}

#[test]
fn saldo_fecha_com_os_totais_do_mes() {
    let inicial = 8;
    let mut atual = inicial;
    let mut movs = Vec::new();
    let pedidos = [
        (TipoMovimentacao::Entrada, 5),
        (TipoMovimentacao::Saida, 10),
        (TipoMovimentacao::Entrada, 2),
        (TipoMovimentacao::Saida, 5),
    ];
    for (tipo, q) in pedidos {
        let p = produto(1, "Leite", "1", 1, 3, atual);
        let data = DataHora { ano: 2025, mes: 1, dia: 2, hora: 3, minuto: 4, segundo: 5 };
        let l = match tipo {
            TipoMovimentacao::Entrada => registrar_entrada(1, q, Some(p), "", 1, "Dona", data),
            TipoMovimentacao::Saida => registrar_saida(1, q, Some(p), "", 1, "Dona", data),
        }
        .unwrap();
        atual = l.nova_quantidade;
        movs.push(l.movimentacao);
    }
    let entradas = total_por_tipo(&movs, TipoMovimentacao::Entrada);
    let saidas = total_por_tipo(&movs, TipoMovimentacao::Saida);
    assert_eq!(atual, inicial + entradas - saidas);
    assert_eq!(atual, 0);
}

fn precos_bons() -> LeituraPrecos {
    LeituraPrecos::Lidos(ComparacaoPrecos { custo_nao_positivo: false, venda_nao_supera_custo: false })
}

fn form_de_cadastro(a: &mut App) {
    a.produtos_state.modo = ModoProdutos::Cadastro;
    a.produtos_state.form.nome = "  Açaí 1kg\u{3000}".to_string();
    a.produtos_state.form.codigo_de_barras = "\u{2028}789\t".to_string();
    a.produtos_state.form.categoria_id = 2;
    a.produtos_state.form.estoque_minimo = " 5 ".to_string();
    a.produtos_state.form.quantidade_atual = "doze".to_string();
}

#[test]
fn preparo_de_produto_recusado() {
    let mut a = app();
    a.produtos_state.modo = ModoProdutos::Cadastro;
    a.produtos_state.form.nome = " \u{3000} ".to_string();
    a.produtos_state.form.codigo_de_barras = "789".to_string();
    a.produtos_state.form.categoria_id = 2;
    assert!(a.preparar_produto(precos_bons()).is_none());
    assert_eq!(a.produtos_state.erro_form.as_deref(), Some("Preencha todos os campos obrigatórios."));
    assert_eq!(a.produtos_state.modo, ModoProdutos::Cadastro);
    form_de_cadastro(&mut a);
    assert!(a.preparar_produto(LeituraPrecos::CustoInvalido).is_none());
    assert_eq!(a.produtos_state.erro_form.as_deref(), Some("Preço de custo inválido."));
    assert!(a.preparar_produto(LeituraPrecos::VendaInvalida).is_none());
    assert_eq!(a.produtos_state.erro_form.as_deref(), Some("Preço de venda inválido."));
    let custo_zero = ComparacaoPrecos { custo_nao_positivo: true, venda_nao_supera_custo: false };
    assert!(a.preparar_produto(LeituraPrecos::Lidos(custo_zero)).is_none());
    assert_eq!(a.produtos_state.erro_form.as_deref(), Some("Preço de custo deve ser maior que zero"));
    let venda_baixa = ComparacaoPrecos { custo_nao_positivo: false, venda_nao_supera_custo: true };
    assert!(a.preparar_produto(LeituraPrecos::Lidos(venda_baixa)).is_none());
    assert_eq!(
        a.produtos_state.erro_form.as_deref(),
        Some("Preço de venda deve ser maior que o preço de custo")
    );
    a.produtos_state.form.estoque_minimo = "-1".to_string();
    assert!(a.preparar_produto(precos_bons()).is_none());
    assert_eq!(a.produtos_state.erro_form.as_deref(), Some("Estoque mínimo não pode ser negativo"));
    assert!(a.feedback.is_none());
}

#[test]
fn cadastro_de_produto_insere_uma_linha() {
    let mut a = app();
    form_de_cadastro(&mut a);
    let (p, c) = a.preparar_produto(precos_bons()).unwrap();
    assert_eq!(p.id, 0);
    assert_eq!(p.nome, "Açaí 1kg");
    assert_eq!(p.codigo_de_barras, "789");
    assert_eq!(p.categoria_id, 2);
    assert_eq!(p.categoria_nome, "");
    assert_eq!(p.estoque_minimo, 5);
    assert_eq!(p.quantidade_atual, 0);
    assert!(a.produtos_state.erro_form.is_none());
    let outro = produto(3, "Outro", "789", 1, 0, 0);
    assert!(a.decidir_produto(p.clone(), c, &Some(outro)).is_none());
    assert_eq!(a.produtos_state.erro_form.as_deref(), Some("Código de barras já cadastrado"));
    let acao = a.decidir_produto(p, c, &None).unwrap();
    assert!(matches!(acao, AcaoProduto::Inserir(ref q) if q.id == 0 && q.nome == "Açaí 1kg"));
    a.concluir_salvar_produto(0, Ok(()));
    assert_eq!(a.feedback, Some(("Produto cadastrado com sucesso.".to_string(), false)));
    assert_eq!(a.produtos_state.modo, ModoProdutos::Lista);
    assert!(a.produtos_state.erro_form.is_none());
}

#[test]
fn editar_sem_mudar_regrava_a_mesma_linha() {
    let mut a = app();
    let p = produto(8, "Café Torrado 500g", "7891000100103", 3, 4, 20);
    a.abrir_edicao(&p, "6.80".to_string(), "10.99".to_string());
    let (q, c) = a.preparar_produto(precos_bons()).unwrap();
    let acao = a.decidir_produto(q, c, &Some(p.clone())).unwrap();
    match acao {
        AcaoProduto::Atualizar(q) => {
            assert_eq!(q.id, p.id);
            assert_eq!(q.nome, p.nome);
            assert_eq!(q.codigo_de_barras, p.codigo_de_barras);
            assert_eq!(q.categoria_id, p.categoria_id);
            assert_eq!(q.estoque_minimo, p.estoque_minimo);
            assert_eq!(q.quantidade_atual, p.quantidade_atual);
        }
        AcaoProduto::Inserir(_) => panic!("uma edição não insere"),
    }
    a.concluir_salvar_produto(8, Ok(()));
    assert_eq!(a.feedback, Some(("Produto atualizado com sucesso.".to_string(), false)));
    assert_eq!(a.produtos_state.modo, ModoProdutos::Lista);
}

#[test]
fn rotulos_de_categoria() {
    let cats = vec![
        Categoria { id: 1, nome: "Bebidas".to_string() },
        Categoria { id: 2, nome: "Limpeza".to_string() },
        Categoria { id: 2, nome: "Repetida".to_string() },
    ];
    assert_eq!(rotulo_categoria(&cats, 2, "Todas"), "Limpeza");
    assert_eq!(rotulo_categoria(&cats, 9, "Todas"), "Todas");
    assert_eq!(rotulo_categoria(&Vec::new(), 1, "Selecione..."), "Selecione...");
    let mut s = ProdutosState::default();
    s.categorias = cats;
    assert_eq!(s.rotulo_filtro_categoria(), "Todas");
    s.filtro_categoria_id = 1;
    assert_eq!(s.rotulo_filtro_categoria(), "Bebidas");
    s.filtro_categoria_id = 7;
    assert_eq!(s.rotulo_filtro_categoria(), "Todas");
    assert_eq!(s.rotulo_categoria_do_form(), "Selecione...");
    s.form.categoria_id = 2;
    assert_eq!(s.rotulo_categoria_do_form(), "Limpeza");
}

#[test]
fn janela_de_confirmacao() {
    assert_eq!(passo_confirmacao(false, true, false), (false, false));
    assert_eq!(passo_confirmacao(true, false, false), (false, true));
    assert_eq!(passo_confirmacao(true, true, false), (true, false));
    assert_eq!(passo_confirmacao(true, false, true), (false, false));
    assert_eq!(passo_confirmacao(true, true, true), (true, false));
}

#[test]
fn busca_vazia_com_categoria() {
    let ps = vec![
        produto(1, "Arroz", "111", 1, 0, 0),
        produto(2, "Feijão", "222", 2, 0, 0),
        produto(3, "Sabão", "333", 1, 0, 0),
    ];
    assert_eq!(indices_filtrados(&ps, "", 1), vec![0, 2]);
    assert_eq!(indices_filtrados(&ps, "", 2), vec![1]);
    assert_eq!(indices_filtrados(&ps, "", 9), Vec::<usize>::new());
}
