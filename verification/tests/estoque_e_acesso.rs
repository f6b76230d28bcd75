use mercearia::autenticacao::autenticar;
use mercearia::carga::{
    administrador_padrao, categorias_dos_exemplos, codigo_de_barras_exemplo, precisa_administrador,
    precisa_exemplos,
};
use mercearia::banco::{movimentacao_da_linha, usuario_da_linha};
use mercearia::dominio::{DataHora, PerfilUsuario, Produto, TipoMovimentacao, Usuario};
use mercearia::estoque::{
    registrar_entrada, registrar_saida, validar_campos, validar_produto, ComparacaoPrecos,
    ErroEstoque,
};
use mercearia::senha::hash_senha;

fn produto(id: i64, codigo: &str, minimo: i64, atual: i64) -> Produto {
    Produto {
        id,
        nome: "Leite Integral 1L".to_string(),
        codigo_de_barras: codigo.to_string(),
        categoria_id: 1,
        categoria_nome: "Laticínios".to_string(),
        estoque_minimo: minimo,
        quantidade_atual: atual,
    }
}

fn agora() -> DataHora {
    DataHora { ano: 2025, mes: 6, dia: 1, hora: 12, minuto: 30, segundo: 0 }
}

fn precos_ok() -> ComparacaoPrecos {
    ComparacaoPrecos { custo_nao_positivo: false, venda_nao_supera_custo: false }
}

#[test]
fn mensagens_de_erro() {
    assert_eq!(ErroEstoque::PrecoCustoInvalido.to_string(), "Preço de custo deve ser maior que zero");
    assert_eq!(
        ErroEstoque::PrecoVendaMenorQueCusto.to_string(),
        "Preço de venda deve ser maior que o preço de custo"
    );
    assert_eq!(ErroEstoque::EstoqueMinimoNegativo.to_string(), "Estoque mínimo não pode ser negativo");
    assert_eq!(ErroEstoque::BarcodeDuplicado.to_string(), "Código de barras já cadastrado");
    assert_eq!(
        ErroEstoque::EstoqueInsuficiente { disponivel: 5 }.to_string(),
        "Estoque insuficiente (disponível: 5)"
    );
    assert_eq!(
        ErroEstoque::EstoqueInsuficiente { disponivel: -2 }.to_string(),
        "Estoque insuficiente (disponível: -2)"
    );
    assert_eq!(ErroEstoque::QuantidadeZero.to_string(), "Quantidade deve ser maior que zero");
    assert_eq!(ErroEstoque::ProdutoNaoEncontrado.to_string(), "Produto não encontrado");
}

#[test]
fn validacao_na_ordem() {
    let p = produto(1, "789", 5, 10);
    let custo_ruim = ComparacaoPrecos { custo_nao_positivo: true, venda_nao_supera_custo: true };
    assert_eq!(validar_campos(&p, custo_ruim), Err(ErroEstoque::PrecoCustoInvalido));
    let venda_ruim = ComparacaoPrecos { custo_nao_positivo: false, venda_nao_supera_custo: true };
    assert_eq!(validar_campos(&p, venda_ruim), Err(ErroEstoque::PrecoVendaMenorQueCusto));
    let negativo = produto(1, "789", -1, 10);
    assert_eq!(validar_campos(&negativo, precos_ok()), Err(ErroEstoque::EstoqueMinimoNegativo));
    assert_eq!(validar_produto(&negativo, precos_ok(), &None), Err(ErroEstoque::EstoqueMinimoNegativo));
    assert_eq!(validar_produto(&p, precos_ok(), &None), Ok(()));
    assert_eq!(validar_produto(&p, precos_ok(), &Some(produto(1, "789", 0, 0))), Ok(()));
    assert_eq!(
        validar_produto(&p, precos_ok(), &Some(produto(2, "789", 0, 0))),
        Err(ErroEstoque::BarcodeDuplicado)
    );
    assert_eq!(
        validar_produto(&p, custo_ruim, &Some(produto(2, "789", 0, 0))),
        Err(ErroEstoque::PrecoCustoInvalido)
    );
}

#[test]
fn entrada_soma_ao_saldo() {
    let l = registrar_entrada(7, 5, Some(produto(7, "789", 3, 10)), "compra", 2, "Ana", agora()).unwrap();
    assert_eq!(l.produto_id, 7);
    assert_eq!(l.nova_quantidade, 15);
    let m = l.movimentacao;
    assert_eq!(m.id, 0);
    assert_eq!(m.tipo, TipoMovimentacao::Entrada);
    assert_eq!(m.quantidade, 5);
    assert_eq!(m.data_hora, agora());
    assert_eq!(m.motivo, "compra");
    assert_eq!(m.produto_id, 7);
    assert_eq!(m.produto_nome, "Leite Integral 1L");
    assert_eq!(m.usuario_id, 2);
    assert_eq!(m.usuario_nome, "Ana");
}

#[test]
fn entrada_recusada() {
    let r = registrar_entrada(7, 0, Some(produto(7, "789", 3, 10)), "", 2, "Ana", agora());
    assert_eq!(r.unwrap_err(), ErroEstoque::QuantidadeZero);
    let r = registrar_entrada(7, -3, None, "", 2, "Ana", agora());
    assert_eq!(r.unwrap_err(), ErroEstoque::QuantidadeZero);
    let r = registrar_entrada(7, 3, None, "", 2, "Ana", agora());
    assert_eq!(r.unwrap_err(), ErroEstoque::ProdutoNaoEncontrado);
}

#[test]
fn saida_tira_do_saldo() {
    let l = registrar_saida(7, 10, Some(produto(7, "789", 3, 10)), "venda", 1, "Dona", agora()).unwrap();
    assert_eq!(l.nova_quantidade, 0);
    assert_eq!(l.movimentacao.tipo, TipoMovimentacao::Saida);
    assert_eq!(l.movimentacao.quantidade, 10);
    let r = registrar_saida(7, 11, Some(produto(7, "789", 3, 10)), "venda", 1, "Dona", agora());
    assert_eq!(r.unwrap_err(), ErroEstoque::EstoqueInsuficiente { disponivel: 10 });
    let r = registrar_saida(7, 0, Some(produto(7, "789", 3, 10)), "", 1, "Dona", agora());
    assert_eq!(r.unwrap_err(), ErroEstoque::QuantidadeZero);
    let r = registrar_saida(7, 1, None, "", 1, "Dona", agora());
    assert_eq!(r.unwrap_err(), ErroEstoque::ProdutoNaoEncontrado);
}

#[test]
fn saida_desfaz_entrada() {
    let antes = produto(7, "789", 3, 10);
    let e = registrar_entrada(7, 4, Some(antes), "", 1, "Dona", agora()).unwrap();
    let depois = produto(7, "789", 3, e.nova_quantidade);
    let s = registrar_saida(7, 4, Some(depois), "", 1, "Dona", agora()).unwrap();
    assert_eq!(s.nova_quantidade, 10);
}

fn usuario(senha: &str, perfil: PerfilUsuario) -> Usuario {
    Usuario {
        id: 3,
        nome: "Bia".to_string(),
        login: "bia".to_string(),
        senha_hash: hash_senha(senha),
        perfil,
    }
}

#[test]
fn autenticacao_por_hash() {
    let u = autenticar(Some(usuario("segredo1", PerfilUsuario::Funcionario)), "segredo1").unwrap();
    assert_eq!(u.login, "bia");
    assert!(autenticar(Some(usuario("segredo1", PerfilUsuario::Funcionario)), "segredo2").is_none());
    assert!(autenticar(None, "segredo1").is_none());
}

#[test]
fn administrador_padrao_entra_com_admin123() {
    let admin = administrador_padrao();
    assert_eq!(admin.login, "admin");
    assert_eq!(admin.nome, "Administradora");
    assert_eq!(admin.perfil, PerfilUsuario::Dona);
    assert_eq!(admin.senha_hash, hash_senha("admin123"));
    let u = autenticar(Some(administrador_padrao()), "admin123").unwrap();
    assert_eq!(u.perfil, PerfilUsuario::Dona);
    assert!(autenticar(Some(administrador_padrao()), "admin").is_none());
    assert!(precisa_administrador(0));
    assert!(!precisa_administrador(1));
}

#[test]
fn exemplos_e_codigos() {
    assert_eq!(codigo_de_barras_exemplo(0), "7890000000001");
    assert_eq!(codigo_de_barras_exemplo(9), "7890000000010");
    assert_eq!(codigo_de_barras_exemplo(188), "7890000000189");
    let codigos: Vec<String> = (0..200).map(codigo_de_barras_exemplo).collect();
    for i in 0..codigos.len() {
        for j in (i + 1)..codigos.len() {
            assert_ne!(codigos[i], codigos[j]);
        }
    }
    assert!(precisa_exemplos(0));
    assert!(!precisa_exemplos(3));
    let ids: Vec<i64> = (1..=14).collect();
    assert_eq!(categorias_dos_exemplos(&ids), Some((1..=12).collect::<Vec<i64>>()));
    let poucos: Vec<i64> = (1..=11).collect();
    assert_eq!(categorias_dos_exemplos(&poucos), None);
}

#[test]
fn linhas_do_banco() {
    let m = movimentacao_da_linha(
        9,
        "Entrada",
        4,
        "2024-12-31 23:59:58",
        "reposição".to_string(),
        7,
        "Leite".to_string(),
        1,
        "Administradora".to_string(),
    );
    assert_eq!(m.tipo, TipoMovimentacao::Entrada);
    assert_eq!(m.data_hora, DataHora { ano: 2024, mes: 12, dia: 31, hora: 23, minuto: 59, segundo: 58 });
    assert_eq!(m.motivo, "reposição");
    let m = movimentacao_da_linha(9, "Saída", 4, "", String::new(), 7, String::new(), 1, String::new());
    assert_eq!(m.tipo, TipoMovimentacao::Saida);
    assert_eq!(m.data_hora.ano, 1970);
    let u = usuario_da_linha(1, "A".to_string(), "a".to_string(), "h".to_string(), "Dona");
    assert_eq!(u.perfil, PerfilUsuario::Dona);
    let u = usuario_da_linha(2, "B".to_string(), "b".to_string(), "h".to_string(), "Funcionário");
    assert_eq!(u.perfil, PerfilUsuario::Funcionario);
}

#[test]
fn conferencia_da_quantidade() {
    assert_eq!(mercearia::estoque::conferir_quantidade(0), Err(ErroEstoque::QuantidadeZero));
    assert_eq!(mercearia::estoque::conferir_quantidade(-4), Err(ErroEstoque::QuantidadeZero));
    assert_eq!(mercearia::estoque::conferir_quantidade(1), Ok(()));
}

#[test]
fn validade_das_datas() {
    let d = |ano, mes, dia| DataHora { ano, mes, dia, hora: 10, minuto: 0, segundo: 0 };
    assert!(d(2024, 2, 29).eh_valida());
    assert!(!d(2023, 2, 29).eh_valida());
    assert!(d(2000, 2, 29).eh_valida());
    assert!(!d(1900, 2, 29).eh_valida());
    assert!(!d(2024, 4, 31).eh_valida());
    assert!(!d(2024, 13, 1).eh_valida());
    assert!(!d(2024, 1, 0).eh_valida());
    assert!(!DataHora { ano: 2024, mes: 1, dia: 1, hora: 24, minuto: 0, segundo: 0 }.eh_valida());
    assert!(!d(300000, 1, 1).eh_valida());
}
