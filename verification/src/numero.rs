//! Conversion of an integer literal's digit text to its `i64` value, with the
//! same acceptance rules as `str::parse::<i64>`: an optional sign, then a
//! nonempty run of decimal digits, rejected when the value leaves the range.

use vstd::prelude::*;
use crate::caracteres::eh_digito;

verus! {

/// The value of a run of decimal digits, most significant first.
pub open spec fn valor_digitos(s: Seq<char>) -> int
    decreases s.len(),
{
    if s.len() == 0 {
        0
    } else {
        valor_digitos(s.drop_last()) * 10 + (s.last() as u32 - 48)
    }
}

/// Every character of the sequence is a decimal digit.
pub open spec fn todos_digitos(s: Seq<char>) -> bool {
    forall|i: int| 0 <= i < s.len() ==> eh_digito(#[trigger] s[i])
}

/// The mathematical integer a literal denotes: an optional `+` or `-` sign
/// followed by at least one decimal digit, and nothing else.
pub open spec fn valor_literal_inteiro(s: Seq<char>) -> Option<int> {
    if s.len() > 0 && (s[0] == '-' || s[0] == '+') {
        let mag = s.skip(1);
        if mag.len() > 0 && todos_digitos(mag) {
            Some(
                if s[0] == '-' {
                    -valor_digitos(mag)
                } else {
                    valor_digitos(mag)
                },
            )
        } else {
            None
        }
    } else if s.len() > 0 && todos_digitos(s) {
        Some(valor_digitos(s))
    } else {
        None
    }
}

/// The `i64` a literal converts to: its mathematical value when that value
/// fits, absence otherwise.
pub open spec fn i64_do_texto(s: Seq<char>) -> Option<i64> {
    match valor_literal_inteiro(s) {
        Some(v) => if i64::MIN <= v <= i64::MAX {
            Some(v as i64)
        } else {
            None
        },
        None => None,
    }
}

/// A digit run denotes a nonnegative value.
proof fn lema_valor_digitos_nao_negativo(s: Seq<char>)
    requires
        todos_digitos(s),
    ensures
        valor_digitos(s) >= 0,
    decreases s.len(),
{
    if s.len() > 0 {
        assert(todos_digitos(s.drop_last()));
        lema_valor_digitos_nao_negativo(s.drop_last());
    }
}

/// A prefix of a digit run denotes no more than the whole run.
proof fn lema_valor_digitos_monotonico(s: Seq<char>, j: int)
    requires
        todos_digitos(s),
        0 <= j <= s.len(),
    ensures
        valor_digitos(s.take(j)) <= valor_digitos(s),
    decreases s.len() - j,
{
    if j == s.len() {
        assert(s.take(j) =~= s);
    } else {
        assert(s.take(j + 1).drop_last() =~= s.take(j));
        assert(todos_digitos(s.take(j)));
        lema_valor_digitos_nao_negativo(s.take(j));
        assert(valor_digitos(s.take(j + 1)) == valor_digitos(s.take(j)) * 10 + (s[j] as u32 - 48));
        lema_valor_digitos_monotonico(s, j + 1);
    }
}

/// Converts an integer literal's text to its value, exactly when
/// `i64_do_texto` gives one.
pub fn converter_para_i64(s: &String) -> (r: Option<i64>)
    ensures
        r == i64_do_texto(s@),
{
    let texto = s.as_str();
    let n = texto.unicode_len();
    if n == 0 {
        return None;
    }
    let primeiro = texto.get_char(0);
    let negativo = primeiro == '-';
    let com_sinal = negativo || primeiro == '+';
    let inicio: usize = if com_sinal {
        1
    } else {
        0
    };
    if inicio == n {
        return None;
    }
    let ghost mag: Seq<char> = s@.skip(inicio as int);
    let limite: u64 = if negativo {
        9223372036854775808
    } else {
        9223372036854775807
    };
    let mut acumulado: u64 = 0;
    let mut i: usize = inicio;
    while i < n
        invariant
            inicio <= i <= n,
            n == s@.len(),
            texto@ == s@,
            inicio == (if com_sinal { 1int } else { 0int }),
            com_sinal == (s@[0] == '-' || s@[0] == '+'),
            negativo == (s@[0] == '-'),
            mag == s@.skip(inicio as int),
            limite == (if negativo { 9223372036854775808u64 } else { 9223372036854775807u64 }),
            todos_digitos(mag.take(i - inicio)),
            acumulado as int == valor_digitos(mag.take(i - inicio)),
            acumulado <= limite,
        decreases n - i,
    {
        let c = texto.get_char(i);
        let u = c as u32;
        if !(48 <= u && u <= 57) {
            assert(!eh_digito(mag[i - inicio]));
            assert(!todos_digitos(mag));
            assert(!todos_digitos(s@)) by {
                if todos_digitos(s@) {
                    assert(eh_digito(s@[i as int]));
                }
            }
            return None;
        }
        let d = (u - 48) as u64;
        let largo: u128 = acumulado as u128 * 10 + d as u128;
        assert(mag.take(i + 1 - inicio).drop_last() =~= mag.take(i - inicio));
        assert(mag.take(i + 1 - inicio).last() == mag[i - inicio]);
        assert(valor_digitos(mag.take(i + 1 - inicio)) == acumulado * 10 + d);
        if largo > limite as u128 {
            // The digits seen so far already pass the magnitude bound, and any
            // digits that follow can only raise the value.
            assert(i64_do_texto(s@) is None) by {
                if todos_digitos(mag) {
                    lema_valor_digitos_monotonico(mag, i + 1 - inicio);
                    assert(valor_digitos(mag) > limite);
                    if !com_sinal {
                        assert(mag =~= s@);
                    }
                } else {
                    if !com_sinal {
                        assert(mag =~= s@);
                    }
                }
            }
            return None;
        }
        acumulado = largo as u64;
        i = i + 1;
        assert(todos_digitos(mag.take(i - inicio)));
    }
    assert(mag.take(n - inicio) =~= mag);
    proof {
        if !com_sinal {
            assert(mag =~= s@);
        }
    }
    if negativo {
        let v = -(acumulado as i128);
        Some(v as i64)
    } else {
        Some(acumulado as i64)
    }
}

} // verus!
