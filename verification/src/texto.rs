//! Operações sobre textos usadas pelas regras do estoque.

use vstd::prelude::*;
use vstd::utf8::*;

verus! {

broadcast use vstd::utf8::encode_utf8_decode_utf8;

/// Compara dois textos caractere a caractere.
pub fn iguais(a: &str, b: &str) -> (r: bool)
    ensures
        r == (a@ == b@),
{
    let ba = a.as_bytes();
    let bb = b.as_bytes();
    assert(ba@ == encode_utf8(a@));
    assert(bb@ == encode_utf8(b@));
    if ba.len() != bb.len() {
        assert(a@ != b@) by {
            if a@ == b@ {
                assert(encode_utf8(a@) == encode_utf8(b@));
            }
        }
        return false;
    }
    let n = ba.len();
    let mut i: usize = 0;
    while i < n
        invariant
            n == ba@.len(),
            n == bb@.len(),
            ba@ == encode_utf8(a@),
            bb@ == encode_utf8(b@),
            i <= n,
            forall|k: int| 0 <= k < i ==> ba@[k] == bb@[k],
        decreases n - i,
    {
        if ba[i] != bb[i] {
            assert(ba@[i as int] != bb@[i as int]);
            assert(a@ != b@) by {
                if a@ == b@ {
                    assert(encode_utf8(a@) == encode_utf8(b@));
                }
            }
            return false;
        }
        i = i + 1;
    }
    assert(ba@ =~= bb@);
    assert(decode_utf8(encode_utf8(a@)) == a@);
    assert(decode_utf8(encode_utf8(b@)) == b@);
    true
}

/// Acrescenta um caractere ao fim de um texto (`String::push`).
#[verifier::external_body]
pub(crate) fn acrescentar(s: &mut String, c: char)
    ensures
        final(s)@ == old(s)@.push(c),
{
    s.push(c);
}

/// O caractere do algarismo decimal `d`.
pub open spec fn algarismo(d: nat) -> char {
    (d + 48) as char
}

/// Os algarismos decimais de `n`, sem zeros à esquerda.
pub open spec fn digitos(n: nat) -> Seq<char>
    decreases n,
{
    if n < 10 {
        seq![algarismo(n)]
    } else {
        digitos(n / 10).push(algarismo(n % 10))
    }
}

/// `k` zeros.
pub open spec fn zeros(k: nat) -> Seq<char> {
    Seq::new(k, |i: int| '0')
}

/// `n` em decimal, completado com zeros à esquerda até `largura` caracteres.
pub open spec fn com_zeros(n: nat, largura: nat) -> Seq<char> {
    let d = digitos(n);
    if d.len() >= largura {
        d
    } else {
        zeros((largura - d.len()) as nat) + d
    }
}

/// `n` em decimal como o formato `{:0largura}` de Rust o escreve: o sinal
/// de menos vem antes dos zeros e conta na largura.
pub open spec fn decimal(n: int, largura: nat) -> Seq<char> {
    if n < 0 {
        seq!['-'] + com_zeros((-n) as nat, if largura >= 1 { (largura - 1) as nat } else { 0 })
    } else {
        com_zeros(n as nat, largura)
    }
}

/// O número de algarismos decimais de `n`.
pub proof fn lema_tamanho_digitos(n: nat)
    ensures
        digitos(n).len() >= 1,
        n < 10 ==> digitos(n).len() == 1,
        n >= 10 ==> digitos(n).len() == digitos(n / 10).len() + 1,
    decreases n,
{
    if n >= 10 {
        lema_tamanho_digitos(n / 10);
    }
}

/// Dez elevado a `k`.
pub open spec fn potencia10(k: nat) -> nat
    decreases k,
{
    if k == 0 {
        1
    } else {
        10 * potencia10((k - 1) as nat)
    }
}

/// Um número menor que `10^k` tem no máximo `k` algarismos.
pub proof fn lema_digitos_limitados(n: nat, k: nat)
    requires
        k >= 1,
        n < potencia10(k),
    ensures
        digitos(n).len() <= k,
    decreases n,
{
    lema_tamanho_digitos(n);
    if n >= 10 {
        if k == 1 {
            assert(potencia10(1) == 10) by {
                reveal_with_fuel(potencia10, 2);
            }
        } else {
            assert(n / 10 < potencia10((k - 1) as nat));
            lema_digitos_limitados(n / 10, (k - 1) as nat);
        }
    }
}

fn caractere_algarismo(d: u64) -> (c: char)
    requires
        d < 10,
    ensures
        c == algarismo(d as nat),
{
    let b: u8 = (d as u8) + 48u8;
    b as char
}

fn contar_digitos(n: u64) -> (k: usize)
    ensures
        k == digitos(n as nat).len(),
        1 <= k <= 20,
    decreases n,
{
    proof {
        lema_tamanho_digitos(n as nat);
        assert(potencia10(20) == 100000000000000000000) by {
            reveal_with_fuel(potencia10, 21);
        }
        lema_digitos_limitados(n as nat, 20);
    }
    if n < 10 {
        1
    } else {
        let k = contar_digitos(n / 10);
        k + 1
    }
}

fn escrever_digitos(s: &mut String, n: u64)
    ensures
        final(s)@ == old(s)@ + digitos(n as nat),
    decreases n,
{
    if n < 10 {
        acrescentar(s, caractere_algarismo(n));
        assert(digitos(n as nat) =~= seq![algarismo(n as nat)]);
    } else {
        escrever_digitos(s, n / 10);
        acrescentar(s, caractere_algarismo(n % 10));
        assert(old(s)@ + digitos(n as nat) =~= (old(s)@ + digitos((n / 10) as nat)).push(
            algarismo((n % 10) as nat),
        ));
    }
}

/// Acrescenta `n` em decimal, completado com zeros à esquerda até `largura`.
pub fn escrever_com_zeros(s: &mut String, n: u64, largura: usize)
    ensures
        final(s)@ == old(s)@ + com_zeros(n as nat, largura as nat),
{
    let k = contar_digitos(n);
    let ghost inicio = s@;
    if k < largura {
        let faltam = largura - k;
        let mut i: usize = 0;
        while i < faltam
            invariant
                i <= faltam,
                s@ == inicio + zeros(i as nat),
            decreases faltam - i,
        {
            acrescentar(s, '0');
            assert(inicio + zeros((i + 1) as nat) =~= (inicio + zeros(i as nat)).push('0'));
            i = i + 1;
        }
    }
    escrever_digitos(s, n);
    proof {
        if k < largura {
            assert(inicio + zeros((largura - k) as nat) + digitos(n as nat) =~= inicio + (zeros(
                (largura - k) as nat,
            ) + digitos(n as nat)));
        } else {
            assert(inicio + digitos(n as nat) =~= inicio + com_zeros(n as nat, largura as nat));
        }
    }
}

/// Acrescenta `n` em decimal no formato `{:0largura}`.
pub fn escrever_decimal(s: &mut String, n: i64, largura: usize)
    ensures
        final(s)@ == old(s)@ + decimal(n as int, largura as nat),
{
    if n < 0 {
        let m: u64 = ((-(n + 1)) as u64) + 1;
        let ghost inicio = s@;
        acrescentar(s, '-');
        let resto: usize = if largura >= 1 { largura - 1 } else { 0 };
        escrever_com_zeros(s, m, resto);
        assert(inicio.push('-') + com_zeros(m as nat, resto as nat) =~= inicio + (seq!['-']
            + com_zeros(m as nat, resto as nat)));
    } else {
        escrever_com_zeros(s, n as u64, largura);
    }
}

/// Texto novo com `n` em decimal, sem largura mínima.
pub fn texto_decimal(n: i64) -> (r: String)
    ensures
        r@ == decimal(n as int, 0),
{
    let mut s = String::new();
    escrever_decimal(&mut s, n, 0);
    assert(Seq::<char>::empty() + decimal(n as int, 0) =~= decimal(n as int, 0));
    s
}

/// `c` tem a propriedade Unicode `White_Space`: os 25 pontos de código
/// U+0009 a U+000D, U+0020, U+0085, U+00A0, U+1680, U+2000 a U+200A, U+2028,
/// U+2029, U+202F, U+205F e U+3000.
pub open spec fn eh_espaco(c: char) -> bool {
    let v = c as u32;
    ||| 0x09 <= v <= 0x0D
    ||| v == 0x20
    ||| v == 0x85
    ||| v == 0xA0
    ||| v == 0x1680
    ||| 0x2000 <= v <= 0x200A
    ||| v == 0x2028
    ||| v == 0x2029
    ||| v == 0x202F
    ||| v == 0x205F
    ||| v == 0x3000
}

/// O texto sem os espaços do começo.
pub open spec fn sem_espacos_iniciais(s: Seq<char>) -> Seq<char>
    decreases s.len(),
{
    if s.len() > 0 && eh_espaco(s[0]) {
        sem_espacos_iniciais(s.drop_first())
    } else {
        s
    }
}

/// O texto sem os espaços do fim.
pub open spec fn sem_espacos_finais(s: Seq<char>) -> Seq<char>
    decreases s.len(),
{
    if s.len() > 0 && eh_espaco(s.last()) {
        sem_espacos_finais(s.drop_last())
    } else {
        s
    }
}

/// O texto sem os espaços das duas pontas, como `str::trim` o devolve.
pub open spec fn aparado(s: Seq<char>) -> Seq<char> {
    sem_espacos_finais(sem_espacos_iniciais(s))
}

/// `c` com certeza não é um espaço em branco: algarismos, sinais e letras
/// ASCII.
pub open spec fn nao_eh_espaco(c: char) -> bool {
    eh_algarismo(c) || c == '-' || c == '+' || ('a' <= c <= 'z') || ('A' <= c <= 'Z')
}

/// Um texto cujas pontas não são espaços não muda ao ser aparado.
pub proof fn lema_aparado_sem_espacos_nas_pontas(s: Seq<char>)
    requires
        s.len() == 0 || (!eh_espaco(s[0]) && !eh_espaco(s.last())),
    ensures
        aparado(s) == s,
{
}

/// Algarismos, sinais e letras ASCII não são espaços.
pub proof fn lema_nao_eh_espaco(c: char)
    requires
        nao_eh_espaco(c),
    ensures
        !eh_espaco(c),
{
}

/// Tira os espaços das pontas com `str::trim`, que a documentação descreve
/// como tirar do começo e do fim os caracteres com a propriedade Unicode
/// `White_Space`.
#[verifier::external_body]
pub(crate) fn aparar(s: &str) -> (r: String)
    ensures
        r@ == aparado(s@),
{
    s.trim().to_string()
}

/// O texto que `str::to_lowercase` devolve.
pub uninterp spec fn minusculas(s: Seq<char>) -> Seq<char>;

/// Passa para minúsculas com `str::to_lowercase`. O contrato diz que o
/// resultado depende apenas do texto e que o texto vazio continua vazio; as
/// regras de caixa do Unicode não são descritas.
#[verifier::external_body]
pub(crate) fn em_minusculas(s: &str) -> (r: String)
    ensures
        r@ == minusculas(s@),
        s@.len() == 0 ==> r@.len() == 0,
{
    s.to_lowercase()
}

/// `padrao` aparece em `s` a partir da posição `i`.
pub open spec fn ocorre_em(s: Seq<char>, padrao: Seq<char>, i: int) -> bool {
    0 <= i && i + padrao.len() <= s.len() && s.subrange(i, i + padrao.len()) == padrao
}

/// `padrao` é um pedaço contíguo de `s`.
pub open spec fn contem_spec(s: Seq<char>, padrao: Seq<char>) -> bool {
    exists|i: int| ocorre_em(s, padrao, i)
}

/// Procura um pedaço com `str::contains`, que a documentação descreve como
/// verdadeiro quando o padrão casa com um pedaço contíguo do texto.
#[verifier::external_body]
pub(crate) fn contem(s: &str, padrao: &str) -> (r: bool)
    ensures
        r == contem_spec(s@, padrao@),
{
    s.contains(padrao)
}

/// `c` é um algarismo ASCII.
pub open spec fn eh_algarismo(c: char) -> bool {
    '0' <= c <= '9'
}

/// O valor decimal de uma sequência de algarismos.
pub open spec fn valor_algarismos(s: Seq<char>) -> int
    decreases s.len(),
{
    if s.len() == 0 {
        0
    } else {
        valor_algarismos(s.drop_last()) * 10 + (s.last() as int - 48)
    }
}

/// O número que `str::parse::<i64>` lê: um sinal `+` ou `-` opcional
/// seguido de ao menos um algarismo, e nada mais, com valor no intervalo de
/// `i64`.
pub open spec fn leitura_i64(s: Seq<char>) -> Option<i64> {
    let negativo = s.len() > 0 && s[0] == '-';
    let corpo = if s.len() > 0 && (s[0] == '-' || s[0] == '+') {
        s.drop_first()
    } else {
        s
    };
    let v = if negativo {
        -valor_algarismos(corpo)
    } else {
        valor_algarismos(corpo)
    };
    if corpo.len() > 0 && (forall|k: int| 0 <= k < corpo.len() ==> eh_algarismo(#[trigger] corpo[k]))
        && i64::MIN <= v <= i64::MAX {
        Some(v as i64)
    } else {
        None
    }
}

/// Os algarismos de `n`, lidos de volta, dão `n`, e todos são algarismos.
pub proof fn lema_valor_digitos(n: nat)
    ensures
        valor_algarismos(digitos(n)) == n,
        forall|k: int| 0 <= k < digitos(n).len() ==> eh_algarismo(#[trigger] digitos(n)[k]),
    decreases n,
{
    let d = (n % 10) as nat;
    assert((algarismo(d) as int) == d + 48);
    if n >= 10 {
        lema_valor_digitos(n / 10);
        assert(digitos(n).drop_last() =~= digitos(n / 10));
        assert(digitos(n).last() == algarismo(d));
        assert(n == (n / 10) * 10 + d);
        assert(valor_algarismos(digitos(n)) == valor_algarismos(digitos(n / 10)) * 10 + (
        algarismo(d) as int - 48));
        assert forall|k: int| 0 <= k < digitos(n).len() implies eh_algarismo(
            #[trigger] digitos(n)[k],
        ) by {
            if k < digitos(n).len() - 1 {
                assert(digitos(n)[k] == digitos(n / 10)[k]);
            }
        }
    } else {
        assert(digitos(n).drop_last() =~= Seq::<char>::empty());
        assert(digitos(n).last() == algarismo(n));
        assert(valor_algarismos(Seq::<char>::empty()) == 0);
        assert(valor_algarismos(digitos(n)) == valor_algarismos(Seq::<char>::empty()) * 10 + (
        algarismo(d) as int - 48));
    }
}

/// Um inteiro escrito em decimal é lido de volta como o mesmo inteiro.
pub proof fn lei_decimal_lido_de_volta(n: i64)
    ensures
        leitura_i64(decimal(n as int, 0)) == Some(n),
        nao_eh_espaco(decimal(n as int, 0)[0]),
        nao_eh_espaco(decimal(n as int, 0).last()),
{
    let m: nat = if n < 0 {
        (-n) as nat
    } else {
        n as nat
    };
    lema_valor_digitos(m);
    lema_tamanho_digitos(m);
    let d = digitos(m);
    assert(eh_algarismo(d[0]));
    assert(eh_algarismo(d[d.len() - 1]));
    if n < 0 {
        let s = seq!['-'] + d;
        assert(decimal(n as int, 0) == s);
        assert(s.drop_first() =~= d);
        assert(s.last() == d.last());
    } else {
        assert(decimal(n as int, 0) == d);
    }
}

/// Lê um inteiro com `str::parse::<i64>`, que aceita exatamente o que a
/// documentação de `i64::from_str` descreve: sinal opcional e algarismos,
/// sem espaços, dentro do intervalo de `i64`.
#[verifier::external_body]
pub(crate) fn ler_i64(s: &str) -> (r: Option<i64>)
    ensures
        r == leitura_i64(s@),
{
    s.parse::<i64>().ok()
}

} // verus!
