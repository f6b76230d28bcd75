//! Datas com hora: validade no calendário, escrita e leitura em texto.

use vstd::prelude::*;

use chrono::{Datelike, NaiveDate, NaiveDateTime, Timelike};

use crate::dominio::DataHora;
use crate::texto::com_zeros;

verus! {

/// O formato com que as datas são gravadas no banco.
pub const FORMATO_BANCO: &'static str = "%Y-%m-%d %H:%M:%S";

/// O formato com que as datas são mostradas nas telas.
pub const FORMATO_EXIBICAO: &'static str = "%d/%m/%Y %H:%M";

/// Ano bissexto no calendário gregoriano proléptico.
pub open spec fn bissexto(ano: int) -> bool {
    (ano % 4 == 0 && ano % 100 != 0) || ano % 400 == 0
}

/// Quantos dias tem o mês `mes` do ano `ano`.
pub open spec fn dias_no_mes(ano: int, mes: int) -> int {
    if mes == 2 {
        if bissexto(ano) {
            29
        } else {
            28
        }
    } else if mes == 4 || mes == 6 || mes == 9 || mes == 11 {
        30
    } else {
        31
    }
}

impl DataHora {
    /// A data existe no calendário (no intervalo de anos que a biblioteca de
    /// datas representa) e a hora é um instante do dia, sem segundo bissexto.
    pub open spec fn valida(self) -> bool {
        &&& -262143 <= self.ano <= 262142
        &&& 1 <= self.mes <= 12
        &&& 1 <= self.dia <= dias_no_mes(self.ano as int, self.mes as int)
        &&& self.hora < 24
        &&& self.minuto < 60
        &&& self.segundo < 60
    }

    /// 1º de janeiro de 1970, 00:00:00.
    pub open spec fn epoca() -> DataHora {
        DataHora { ano: 1970, mes: 1, dia: 1, hora: 0, minuto: 0, segundo: 0 }
    }
}

/// O ano como o `%Y` do chrono o escreve: de 0 a 9999, quatro algarismos
/// completados com zeros; fora daí, o sinal e ao menos quatro algarismos.
pub open spec fn texto_ano(ano: int) -> Seq<char> {
    if 0 <= ano <= 9999 {
        com_zeros(ano as nat, 4)
    } else if ano < 0 {
        seq!['-'] + com_zeros((-ano) as nat, 4)
    } else {
        seq!['+'] + com_zeros(ano as nat, 4)
    }
}

/// A data no formato do banco, `AAAA-MM-DD hh:mm:ss`.
pub open spec fn texto_banco(d: DataHora) -> Seq<char> {
    texto_ano(d.ano as int) + seq!['-'] + com_zeros(d.mes as nat, 2) + seq!['-'] + com_zeros(
        d.dia as nat,
        2,
    ) + seq![' '] + com_zeros(d.hora as nat, 2) + seq![':'] + com_zeros(d.minuto as nat, 2)
        + seq![':'] + com_zeros(d.segundo as nat, 2)
}

/// A data no formato das telas, `DD/MM/AAAA hh:mm`.
pub open spec fn texto_exibicao(d: DataHora) -> Seq<char> {
    com_zeros(d.dia as nat, 2) + seq!['/'] + com_zeros(d.mes as nat, 2) + seq!['/'] + texto_ano(
        d.ano as int,
    ) + seq![' '] + com_zeros(d.hora as nat, 2) + seq![':'] + com_zeros(d.minuto as nat, 2)
}

/// A data que `NaiveDateTime::parse_from_str` lê de um texto, ou `None`
/// quando a leitura falha.
pub uninterp spec fn leitura_chrono(texto: Seq<char>, formato: Seq<char>) -> Option<DataHora>;

/// Escreve a data com `chrono::NaiveDateTime::format`, que escreve `%m %d %H
/// %M %S` com dois algarismos completados com zeros e `%Y` como `texto_ano`
/// descreve (`write_year` do chrono: quatro algarismos de 0 a 9999, senão o
/// sinal e ao menos quatro algarismos).
#[verifier::external_body]
fn formatar_chrono(d: &DataHora, formato: &str) -> (r: String)
    requires
        d.valida(),
        formato@ == FORMATO_BANCO@ || formato@ == FORMATO_EXIBICAO@,
    ensures
        formato@ == FORMATO_BANCO@ ==> r@ == texto_banco(*d),
        formato@ == FORMATO_EXIBICAO@ ==> r@ == texto_exibicao(*d),
{
    NaiveDate::from_ymd_opt(d.ano, d.mes, d.dia)
        .unwrap()
        .and_hms_opt(d.hora, d.minuto, d.segundo)
        .unwrap()
        .format(formato)
        .to_string()
}

/// Lê uma data com `chrono::NaiveDateTime::parse_from_str`. O contrato diz
/// que o resultado só depende do texto e do formato; que uma data lida é
/// válida (os campos vêm de um `NaiveDateTime`, que sempre é uma data do
/// calendário; `second()` vai de 0 a 59); e que, no formato do banco, o texto
/// de uma data de ano entre 0 e 9999 escrito como a tabela de especificadores
/// do chrono descreve (`%Y` com 4 algarismos, os demais com 2) é lido como essa
/// data. Quais outros textos são aceitos não é descrito.
#[verifier::external_body]
fn ler_chrono(texto: &str, formato: &str) -> (r: Option<DataHora>)
    ensures
        r == leitura_chrono(texto@, formato@),
        r matches Some(d) ==> d.valida(),
        forall|d: DataHora|
            d.valida() && 0 <= d.ano <= 9999 && formato@ == FORMATO_BANCO@ && texto@
                == #[trigger] texto_banco(d) ==> r == Some(d),
{
    match NaiveDateTime::parse_from_str(texto, formato) {
        Ok(dt) => Some(
            DataHora {
                ano: dt.year(),
                mes: dt.month(),
                dia: dt.day(),
                hora: dt.hour(),
                minuto: dt.minute(),
                segundo: dt.second(),
            },
        ),
        Err(_) => None,
    }
}

/// O valor padrão de `chrono::NaiveDateTime` (`Default::default`), que a
/// documentação do chrono diz ser 1º de janeiro de 1970, 00:00:00.
#[verifier::external_body]
fn data_padrao_chrono() -> (r: DataHora)
    ensures
        r == DataHora::epoca(),
{
    let dt = NaiveDateTime::default();
    DataHora {
        ano: dt.year(),
        mes: dt.month(),
        dia: dt.day(),
        hora: dt.hour(),
        minuto: dt.minute(),
        segundo: dt.second(),
    }
}

/// Quantos dias tem um mês válido.
fn calcular_dias_no_mes(ano: i32, mes: u32) -> (r: u32)
    requires
        1 <= mes <= 12,
    ensures
        r == dias_no_mes(ano as int, mes as int),
{
    if mes == 2 {
        let a = ano as i64;
        if (a % 4 == 0 && a % 100 != 0) || a % 400 == 0 {
            29
        } else {
            28
        }
    } else if mes == 4 || mes == 6 || mes == 9 || mes == 11 {
        30
    } else {
        31
    }
}

impl DataHora {
    /// Se a data é válida.
    pub fn eh_valida(&self) -> (r: bool)
        ensures
            r == self.valida(),
    {
        -262143 <= self.ano && self.ano <= 262142 && 1 <= self.mes && self.mes <= 12 && 1
            <= self.dia && self.dia <= calcular_dias_no_mes(self.ano, self.mes) && self.hora < 24
            && self.minuto < 60 && self.segundo < 60
    }

    /// O texto com que a data é gravada no banco.
    pub fn para_banco(&self) -> (r: String)
        requires
            self.valida(),
        ensures
            r@ == texto_banco(*self),
    {
        formatar_chrono(self, FORMATO_BANCO)
    }

    /// O texto com que a data é mostrada nas telas.
    pub fn para_exibicao(&self) -> (r: String)
        requires
            self.valida(),
        ensures
            r@ == texto_exibicao(*self),
    {
        formatar_chrono(self, FORMATO_EXIBICAO)
    }

    /// A data lida de um texto do banco; um texto ilegível dá a data padrão,
    /// 1º de janeiro de 1970. O texto que `para_banco` grava de uma data de ano
    /// entre 0 e 9999 é lido de volta como a mesma data.
    pub fn do_banco(texto: &str) -> (r: DataHora)
        ensures
            r == match leitura_chrono(texto@, FORMATO_BANCO@) {
                Some(d) => d,
                None => DataHora::epoca(),
            },
            r.valida(),
            forall|d: DataHora|
                d.valida() && 0 <= d.ano <= 9999 && texto@ == #[trigger] texto_banco(d) ==> r == d,
    {
        match ler_chrono(texto, FORMATO_BANCO) {
            Some(d) => d,
            None => {
                let d = data_padrao_chrono();
                assert(dias_no_mes(1970, 1) == 31);
                d
            },
        }
    }
}

} // verus!
