use vstd::prelude::*;
use vstd::string::StringExecFns;

verus! {

/// The single decimal digit `d`, as text.
pub open spec fn digito(d: int) -> Seq<char>
    recommends
        0 <= d <= 9,
{
    seq![(('0' as u32) + (d as u32)) as char]
}

/// The decimal digits of the natural number `n`, most significant first,
/// with no leading zero except for `0` itself.
pub open spec fn digitos(n: nat) -> Seq<char>
    decreases n,
{
    if n < 10 {
        digito(n as int)
    } else {
        digitos(n / 10) + digito((n % 10) as int)
    }
}

/// The decimal text of the integer `n`: a minus sign when `n` is negative,
/// then the digits of its magnitude.
pub open spec fn decimal(n: int) -> Seq<char> {
    if n < 0 {
        seq!['-'] + digitos((-n) as nat)
    } else {
        digitos(n as nat)
    }
}

/// The text of the one digit `d`.
pub fn texto_digito(d: u8) -> (r: &'static str)
    requires
        d <= 9,
    ensures
        r@ == digito(d as int),
{
    proof {
        reveal_strlit("0");
        reveal_strlit("1");
        reveal_strlit("2");
        reveal_strlit("3");
        reveal_strlit("4");
        reveal_strlit("5");
        reveal_strlit("6");
        reveal_strlit("7");
        reveal_strlit("8");
        reveal_strlit("9");
    }
    let r = if d == 0 {
        "0"
    } else if d == 1 {
        "1"
    } else if d == 2 {
        "2"
    } else if d == 3 {
        "3"
    } else if d == 4 {
        "4"
    } else if d == 5 {
        "5"
    } else if d == 6 {
        "6"
    } else if d == 7 {
        "7"
    } else if d == 8 {
        "8"
    } else {
        "9"
    };
    assert(r@ =~= digito(d as int));
    r
}

/// Appends the decimal digits of `n` to `destino`.
pub fn anexa_digitos(destino: &mut String, n: u64)
    ensures
        final(destino)@ == old(destino)@ + digitos(n as nat),
    decreases n,
{
    if n < 10 {
        destino.append(texto_digito(n as u8));
    } else {
        anexa_digitos(destino, n / 10);
        destino.append(texto_digito((n % 10) as u8));
        assert(final(destino)@ =~= old(destino)@ + digitos(n as nat));
    }
}

/// Appends the decimal text of `n` to `destino`.
pub fn anexa_decimal(destino: &mut String, n: i64)
    ensures
        final(destino)@ == old(destino)@ + decimal(n as int),
{
    if n < 0 {
        proof {
            reveal_strlit("-");
        }
        destino.append("-");
        let magnitude: u64 = ((-(n + 1)) as u64) + 1;
        anexa_digitos(destino, magnitude);
        assert(final(destino)@ =~= old(destino)@ + decimal(n as int));
    } else {
        anexa_digitos(destino, n as u64);
    }
}

/// Whether `a` and `b` hold the same text, character for character.
pub fn mesmo_texto(a: &str, b: &str) -> (r: bool)
    ensures
        r == (a@ == b@),
{
    String::from_str(a) == String::from_str(b)
}

} // verus!
