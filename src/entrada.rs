use vstd::prelude::*;
use vstd::string::*;

use crate::errors::ErroRPG;
use crate::itens::Efeito;
use crate::personagens::Classe;

verus! {

/// The class chosen by menu option `opcao`: 0, 1 and 2 in the order
/// Guerreiro, Mago, Assassino.
pub open spec fn classe_da_opcao(opcao: u32) -> Option<Classe> {
    if opcao == 0 {
        Some(Classe::Guerreiro)
    } else if opcao == 1 {
        Some(Classe::Mago)
    } else if opcao == 2 {
        Some(Classe::Assassino)
    } else {
        None
    }
}

/// The class of menu option `opcao`; any other option is an invalid class.
pub fn classe_de_opcao(opcao: u32) -> (r: Result<Classe, ErroRPG>)
    ensures
        match classe_da_opcao(opcao) {
            Some(c) => r == Ok::<Classe, ErroRPG>(c),
            None => r == Err::<Classe, ErroRPG>(ErroRPG::ClasseInvalida),
        },
{
    match opcao {
        0 => Ok(Classe::Guerreiro),
        1 => Ok(Classe::Mago),
        2 => Ok(Classe::Assassino),
        _ => Err(ErroRPG::ClasseInvalida),
    }
}

/// How many numbers the effect of menu option `opcao` takes: none for
/// Fisico (0) and Congelamento (1), two for Queimadura (2), Eletricidade (4)
/// and Sangramento (5), one for Veneno (3) and Enfraquecimento (6).
pub open spec fn parametros_da_opcao(opcao: u32) -> Option<u32> {
    if opcao <= 1 {
        Some(0)
    } else if opcao == 2 || opcao == 4 || opcao == 5 {
        Some(2)
    } else if opcao == 3 || opcao == 6 {
        Some(1)
    } else {
        None
    }
}

/// How many numbers must be asked for the effect of menu option `opcao`;
/// an option past the last effect is an invalid effect.
pub fn parametros_do_efeito(opcao: u32) -> (r: Result<u32, ErroRPG>)
    ensures
        match parametros_da_opcao(opcao) {
            Some(n) => r == Ok::<u32, ErroRPG>(n),
            None => r == Err::<u32, ErroRPG>(ErroRPG::EfeitoInvalido),
        },
{
    if opcao <= 1 {
        Ok(0)
    } else if opcao == 2 || opcao == 4 || opcao == 5 {
        Ok(2)
    } else if opcao == 3 || opcao == 6 {
        Ok(1)
    } else {
        Err(ErroRPG::EfeitoInvalido)
    }
}

/// The effect of menu option `opcao`, built from its numbers `a` and `b`
/// in order; numbers it does not take are not read.
pub open spec fn efeito_da_opcao(opcao: u32, a: u32, b: u32) -> Option<Efeito> {
    if opcao == 0 {
        Some(Efeito::Fisico)
    } else if opcao == 1 {
        Some(Efeito::Congelamento)
    } else if opcao == 2 {
        Some(Efeito::Queimadura(a, b))
    } else if opcao == 3 {
        Some(Efeito::Veneno(a))
    } else if opcao == 4 {
        Some(Efeito::Eletricidade(a, b))
    } else if opcao == 5 {
        Some(Efeito::Sangramento(a, b))
    } else if opcao == 6 {
        Some(Efeito::Enfraquecimento(a))
    } else {
        None
    }
}

/// The effect of menu option `opcao` with the numbers `a` and `b`; any other
/// option is an invalid effect.
pub fn efeito_de_opcao(opcao: u32, a: u32, b: u32) -> (r: Result<Efeito, ErroRPG>)
    ensures
        match efeito_da_opcao(opcao, a, b) {
            Some(e) => r == Ok::<Efeito, ErroRPG>(e),
            None => r == Err::<Efeito, ErroRPG>(ErroRPG::EfeitoInvalido),
        },
{
    match opcao {
        0 => Ok(Efeito::Fisico),
        1 => Ok(Efeito::Congelamento),
        2 => Ok(Efeito::Queimadura(a, b)),
        3 => Ok(Efeito::Veneno(a)),
        4 => Ok(Efeito::Eletricidade(a, b)),
        5 => Ok(Efeito::Sangramento(a, b)),
        6 => Ok(Efeito::Enfraquecimento(a)),
        _ => Err(ErroRPG::EfeitoInvalido),
    }
}

#[verifier::external_type_specification]
#[verifier::external_body]
pub struct ExUuidError(uuid::Error);

/// The id that a text names, if it is one: what `uuid::Uuid::parse_str`
/// accepts (hexadecimal digits, with or without hyphens, braces or a urn
/// prefix) and the 128 bits it reads from it.
pub uninterp spec fn uuid_lido(s: Seq<char>) -> Option<u128>;

/// Relies on `uuid::Uuid::parse_str`, and on `uuid::Uuid::as_u128` for the
/// bits of what it read: the result depends on the text alone.
#[verifier::external_body]
fn ler_uuid_texto(s: &str) -> (r: Result<u128, uuid::Error>)
    ensures
        match r {
            Ok(v) => uuid_lido(s@) == Some(v),
            Err(_) => uuid_lido(s@) is None,
        },
{
    match uuid::Uuid::parse_str(s) {
        Ok(u) => Ok(u.as_u128()),
        Err(e) => Err(e),
    }
}

/// The id that `texto` names; text that names none is invalid input, and
/// the message quotes it.
pub fn interpretar_uuid(texto: &str) -> (r: Result<u128, ErroRPG>)
    ensures
        match uuid_lido(texto@) {
            Some(v) => r == Ok::<u128, ErroRPG>(v),
            None => {
                &&& r is Err && r->Err_0 is EntradaInvalida
                &&& r->Err_0->EntradaInvalida_0@ == "UUID invalido: "@ + texto@
            },
        },
{
    match ler_uuid_texto(texto) {
        Ok(v) => Ok(v),
        Err(_) => {
            let mut m = String::from_str("UUID invalido: ");
            m.append(texto);
            Err(ErroRPG::EntradaInvalida(m))
        },
    }
}

/// Whether `c` is a decimal digit.
pub open spec fn e_digito(c: char) -> bool {
    '0' <= c && c <= '9'
}

/// The number that a string of decimal digits writes.
pub open spec fn valor_digitos(s: Seq<char>) -> nat
    decreases s.len(),
{
    if s.len() == 0 {
        0
    } else {
        valor_digitos(s.drop_last()) * 10 + ((s.last() as u32) - ('0' as u32)) as nat
    }
}

/// Whether `s` writes, in decimal digits alone, a number that fits in a `u32`.
pub open spec fn u32_valido(s: Seq<char>) -> bool {
    &&& s.len() > 0
    &&& forall|i: int| 0 <= i < s.len() ==> e_digito(#[trigger] s[i])
    &&& valor_digitos(s) <= u32::MAX
}

proof fn lema_valor_do_prefixo(s: Seq<char>, k: int)
    requires
        0 <= k <= s.len(),
        forall|i: int| 0 <= i < s.len() ==> e_digito(#[trigger] s[i]),
    ensures
        valor_digitos(s.subrange(0, k)) <= valor_digitos(s),
    decreases s.len(),
{
    if k < s.len() {
        let t = s.drop_last();
        assert forall|i: int| 0 <= i < t.len() implies e_digito(#[trigger] t[i]) by {
            assert(t[i] == s[i]);
        }
        lema_valor_do_prefixo(t, k);
        assert(t.subrange(0, k) =~= s.subrange(0, k));
        let v = valor_digitos(t);
        assert(v <= v * 10) by (nonlinear_arith);
    } else {
        assert(s.subrange(0, k) =~= s);
    }
}

/// The number that `texto` writes in decimal digits; anything else, or a
/// number past `u32::MAX`, is invalid input.
pub fn interpretar_u32(texto: &str) -> (r: Result<u32, ErroRPG>)
    ensures
        u32_valido(texto@) ==> r == Ok::<u32, ErroRPG>(valor_digitos(texto@) as u32),
        !u32_valido(texto@) ==> r is Err && r->Err_0 is EntradaInvalida,
{
    let n = texto.unicode_len();
    if n == 0 {
        return Err(
            ErroRPG::EntradaInvalida(
                String::from_str("Entrada deve ser um numero inteiro positivo"),
            ),
        );
    }
    let mut acc: u64 = 0;
    let mut i: usize = 0;
    while i < n
        invariant
            i <= n,
            n == texto@.len(),
            acc == valor_digitos(texto@.subrange(0, i as int)),
            acc <= u32::MAX,
            forall|j: int| 0 <= j < i ==> e_digito(#[trigger] texto@[j]),
        decreases n - i,
    {
        let c = texto.get_char(i);
        if !('0' <= c && c <= '9') {
            return Err(
                ErroRPG::EntradaInvalida(
                    String::from_str("Entrada deve ser um numero inteiro positivo"),
                ),
            );
        }
        let d: u64 = ((c as u32) - ('0' as u32)) as u64;
        proof {
            assert(texto@.subrange(0, i + 1).drop_last() =~= texto@.subrange(0, i as int));
        }
        acc = acc * 10 + d;
        if acc > u32::MAX as u64 {
            proof {
                if forall|j: int| 0 <= j < texto@.len() ==> e_digito(#[trigger] texto@[j]) {
                    lema_valor_do_prefixo(texto@, i + 1);
                }
            }
            return Err(
                ErroRPG::EntradaInvalida(
                    String::from_str("Entrada deve ser um numero inteiro positivo"),
                ),
            );
        }
        i = i + 1;
    }
    proof {
        assert(texto@.subrange(0, n as int) =~= texto@);
    }
    Ok(acc as u32)
}

} // verus!
