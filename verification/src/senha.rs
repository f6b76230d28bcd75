//! Hash de senhas: SHA-256 dos bytes UTF-8 da senha, em hexadecimal minúsculo.

use vstd::prelude::*;
use vstd::utf8::encode_utf8;

use sha2::{Digest, Sha256};

verus! {

/// O resumo SHA-256 de uma sequência de bytes.
pub uninterp spec fn resumo_sha256(dados: Seq<u8>) -> Seq<u8>;

/// O caractere hexadecimal minúsculo de um valor de 0 a 15.
pub open spec fn caractere_hex(v: int) -> char {
    if v < 10 {
        (v + 48) as char
    } else {
        (v + 87) as char
    }
}

/// Cada byte vira dois caracteres hexadecimais minúsculos, o mais
/// significativo primeiro.
pub open spec fn hex_minusculo(dados: Seq<u8>) -> Seq<char>
    decreases dados.len(),
{
    if dados.len() == 0 {
        Seq::empty()
    } else {
        seq![caractere_hex(dados[0] as int / 16), caractere_hex(dados[0] as int % 16)] + hex_minusculo(
            dados.drop_first(),
        )
    }
}

/// O hash com que uma senha é guardada.
pub open spec fn hash_de(senha: Seq<char>) -> Seq<char> {
    hex_minusculo(resumo_sha256(encode_utf8(senha)))
}

/// Calcula `sha2::Sha256::digest`. O resultado é o resumo SHA-256 dos bytes
/// dados, que só depende deles, e tem 32 bytes (o tamanho de saída do
/// SHA-256).
#[verifier::external_body]
fn sha256(dados: &[u8]) -> (r: Vec<u8>)
    ensures
        r@ == resumo_sha256(dados@),
        r@.len() == 32,
{
    Sha256::digest(dados).to_vec()
}

/// Codifica com `hex::encode`, que escreve cada byte como dois algarismos
/// hexadecimais minúsculos (`0123456789abcdef`), o mais significativo primeiro.
#[verifier::external_body]
fn codificar_hex(dados: &[u8]) -> (r: String)
    ensures
        r@ == hex_minusculo(dados@),
{
    hex::encode(dados)
}

/// O hexadecimal de `n` bytes tem `2n` caracteres, todos algarismos
/// hexadecimais minúsculos.
pub proof fn lema_tamanho_hex(dados: Seq<u8>)
    ensures
        hex_minusculo(dados).len() == 2 * dados.len(),
        forall|i: int|
            0 <= i < hex_minusculo(dados).len() ==> {
                let c = #[trigger] hex_minusculo(dados)[i];
                ('0' <= c <= '9') || ('a' <= c <= 'f')
            },
    decreases dados.len(),
{
    if dados.len() > 0 {
        lema_tamanho_hex(dados.drop_first());
        let cabeca = seq![caractere_hex(dados[0] as int / 16), caractere_hex(dados[0] as int % 16)];
        let resto = hex_minusculo(dados.drop_first());
        assert forall|i: int| 0 <= i < hex_minusculo(dados).len() implies {
            let c = #[trigger] hex_minusculo(dados)[i];
            ('0' <= c <= '9') || ('a' <= c <= 'f')
        } by {
            if i >= 2 {
                assert(hex_minusculo(dados)[i] == resto[i - 2]);
            }
        }
    }
}

/// O hash de uma senha: SHA-256 dos bytes UTF-8, em hexadecimal minúsculo.
pub fn hash_senha(senha: &str) -> (r: String)
    ensures
        r@ == hash_de(senha@),
        r@.len() == 64,
        forall|i: int|
            0 <= i < r@.len() ==> ('0' <= #[trigger] r@[i] <= '9') || ('a' <= r@[i] <= 'f'),
{
    let resumo = sha256(senha.as_bytes());
    let r = codificar_hex(resumo.as_slice());
    proof {
        lema_tamanho_hex(resumo@);
        assert forall|i: int| 0 <= i < r@.len() implies ('0' <= #[trigger] r@[i] <= '9') || (
        'a' <= r@[i] <= 'f') by {
            assert(r@[i] == hex_minusculo(resumo@)[i]);
        }
    }
    r
}

} // verus!
