use mercearia::datas::{FORMATO_BANCO, FORMATO_EXIBICAO};
use mercearia::dominio::{DataHora, PerfilUsuario, Produto, TipoMovimentacao};
use mercearia::senha::hash_senha;
use mercearia::texto::{escrever_com_zeros, iguais, texto_decimal};
use mercearia::ui::produtos::{indices_filtrados, inteiro_ou_zero};

fn produto(id: i64, minimo: i64, atual: i64) -> Produto {
    Produto {
        id,
        nome: "Arroz Branco 5kg".to_string(),
        codigo_de_barras: "7890000000001".to_string(),
        categoria_id: 1,
        categoria_nome: "Mercearia".to_string(),
        estoque_minimo: minimo,
        quantidade_atual: atual,
    }
}

#[test]
fn perfil_de_e_para_texto() {
    assert_eq!(PerfilUsuario::from_str("Dona"), PerfilUsuario::Dona);
    assert_eq!(PerfilUsuario::from_str("Funcionario"), PerfilUsuario::Funcionario);
    assert_eq!(PerfilUsuario::from_str("dona"), PerfilUsuario::Funcionario);
    assert_eq!(PerfilUsuario::from_str(""), PerfilUsuario::Funcionario);
    assert_eq!(PerfilUsuario::Dona.as_str(), "Dona");
    assert_eq!(PerfilUsuario::Funcionario.as_str(), "Funcionário");
    for p in [PerfilUsuario::Dona, PerfilUsuario::Funcionario] {
        assert_eq!(PerfilUsuario::from_str(p.as_str()), p);
    }
}

#[test]
fn tipo_de_e_para_texto() {
    assert_eq!(TipoMovimentacao::from_str("Entrada"), TipoMovimentacao::Entrada);
    assert_eq!(TipoMovimentacao::from_str("Saida"), TipoMovimentacao::Saida);
    assert_eq!(TipoMovimentacao::from_str("qualquer"), TipoMovimentacao::Saida);
    assert_eq!(TipoMovimentacao::Entrada.as_str(), "Entrada");
    assert_eq!(TipoMovimentacao::Saida.as_str(), "Saída");
    for t in [TipoMovimentacao::Entrada, TipoMovimentacao::Saida] {
        assert_eq!(TipoMovimentacao::from_str(t.as_str()), t);
    }
}

#[test]
fn estoque_baixo_no_limite() {
    assert!(produto(1, 10, 10).estoque_baixo());
    assert!(produto(1, 10, 3).estoque_baixo());
    assert!(!produto(1, 10, 11).estoque_baixo());
}

#[test]
fn textos_iguais() {
    assert!(iguais("Dona", "Dona"));
    assert!(!iguais("Dona", "Don"));
    assert!(!iguais("Saída", "Saida"));
    assert!(iguais("", ""));
}

#[test]
fn decimais_com_zeros() {
    assert_eq!(texto_decimal(0), "0");
    assert_eq!(texto_decimal(1234), "1234");
    assert_eq!(texto_decimal(-56), "-56");
    assert_eq!(texto_decimal(i64::MIN), "-9223372036854775808");
    assert_eq!(texto_decimal(i64::MAX), "9223372036854775807");
    let mut s = String::from("x");
    escrever_com_zeros(&mut s, 42, 5);
    assert_eq!(s, "x00042");
    let mut s = String::new();
    escrever_com_zeros(&mut s, 123456, 3);
    assert_eq!(s, "123456");
}

#[test]
fn busca_sem_caixa_e_por_trecho() {
    let ps = vec![
        Produto { nome: "Água Mineral".to_string(), ..produto(1, 1, 1) },
        Produto { nome: "ÁGUA Tônica".to_string(), codigo_de_barras: "555".to_string(), ..produto(2, 1, 1) },
    ];
    assert_eq!(indices_filtrados(&ps, "água", 0), vec![0, 1]);
    assert_eq!(indices_filtrados(&ps, "TÔNICA", 0), vec![1]);
    assert_eq!(indices_filtrados(&ps, "55", 0), vec![1]);
    assert_eq!(indices_filtrados(&ps, "tônicas", 0), Vec::<usize>::new());
}

#[test]
fn leitura_de_inteiros() {
    assert_eq!(inteiro_ou_zero("42"), 42);
    assert_eq!(inteiro_ou_zero("+7"), 7);
    assert_eq!(inteiro_ou_zero("-15"), -15);
    assert_eq!(inteiro_ou_zero("  8\t"), 8);
    assert_eq!(inteiro_ou_zero(""), 0);
    assert_eq!(inteiro_ou_zero("-"), 0);
    assert_eq!(inteiro_ou_zero("3a"), 0);
    assert_eq!(inteiro_ou_zero("9223372036854775808"), 0);
    assert_eq!(inteiro_ou_zero("-9223372036854775808"), i64::MIN);
    for n in [0, 7, -7, 120, i64::MAX, i64::MIN] {
        assert_eq!(inteiro_ou_zero(&texto_decimal(n)), n);
    }
}

#[test]
fn datas_escritas_e_lidas() {
    let d = DataHora { ano: 2024, mes: 3, dia: 5, hora: 7, minuto: 8, segundo: 9 };
    assert_eq!(d.para_banco(), "2024-03-05 07:08:09");
    assert_eq!(d.para_exibicao(), "05/03/2024 07:08");
    assert_eq!(DataHora::do_banco("2024-03-05 07:08:09"), d);
    assert_eq!(DataHora::do_banco(&d.para_banco()), d);
    let epoca = DataHora { ano: 1970, mes: 1, dia: 1, hora: 0, minuto: 0, segundo: 0 };
    assert_eq!(DataHora::do_banco("ontem"), epoca);
    assert_eq!(DataHora::do_banco("2024-02-30 10:00:00"), epoca);
    assert_eq!(FORMATO_BANCO, "%Y-%m-%d %H:%M:%S");
    assert_eq!(FORMATO_EXIBICAO, "%d/%m/%Y %H:%M");
}

#[test]
fn hash_da_senha_padrao() {
    let h = hash_senha("admin123");
    assert_eq!(h, "240be518fabd2724ddb6f04eeb1da5967448d7e831c08c8fa822809f74c720a9");
    assert_eq!(h.len(), 64);
    assert_ne!(hash_senha("admin124"), h);
    assert_eq!(
        hash_senha(""),
        "e3b0c44298fc1c149afbf4c8996fb92427ae41e4649b934ca495991b7852b855"
    );
}

#[test]
fn datas_fora_dos_quatro_algarismos() {
    let antiga = DataHora { ano: -5, mes: 1, dia: 2, hora: 3, minuto: 4, segundo: 5 };
    assert_eq!(antiga.para_banco(), "-0005-01-02 03:04:05");
    assert_eq!(antiga.para_exibicao(), "02/01/-0005 03:04");
    let futura = DataHora { ano: 10000, mes: 12, dia: 31, hora: 23, minuto: 59, segundo: 59 };
    assert_eq!(futura.para_banco(), "+10000-12-31 23:59:59");
}
