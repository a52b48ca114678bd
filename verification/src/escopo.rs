use crate::saida::Saida;
use crate::texto::{anexa_decimal, decimal};
use vstd::prelude::*;
use vstd::string::StringExecFns;

verus! {

/// A line made of the label `rotulo` followed by the decimal text of `valor`.
pub open spec fn linha_rotulada(rotulo: Seq<char>, valor: int) -> Seq<char> {
    rotulo + decimal(valor)
}

/// What `sombra` writes: the value bound inside the nested scope is shown while
/// that scope lasts, and the outer value of the same name once it has ended.
pub open spec fn linhas_sombra() -> Seq<Seq<char>> {
    seq![
        "Inicio da função sombra"@,
        linha_rotulada("dentro b = "@, 456),
        linha_rotulada("dentro a = "@, 777),
        linha_rotulada("fora a = "@, 123),
    ]
}

/// The line that `soma` writes for the operands `a` and `b`.
pub open spec fn linha_soma(a: int, b: int) -> Seq<char> {
    "A soma de "@ + decimal(a) + " + "@ + decimal(b) + " é: "@ + decimal(a + b)
}

/// Builds the line `rotulo` followed by `valor`.
pub fn rotula(rotulo: &str, valor: i64) -> (r: String)
    ensures
        r@ == linha_rotulada(rotulo@, valor as int),
{
    let mut r = String::from_str(rotulo);
    anexa_decimal(&mut r, valor);
    r
}

/// Binds a name, shadows it inside a nested scope, and shows that the outer
/// binding is untouched once the scope ends.
pub fn sombra(saida: &mut Saida)
    ensures
        final(saida)@ == old(saida)@ + linhas_sombra(),
{
    saida.escreve(String::from_str("Inicio da função sombra"));
    let a: i64 = 123;
    {
        let b: i64 = 456;
        saida.escreve(rotula("dentro b = ", b));
        let a: i64 = 777;
        saida.escreve(rotula("dentro a = ", a));
    }
    saida.escreve(rotula("fora a = ", a));
    assert(final(saida)@ =~= old(saida)@ + linhas_sombra());
}

/// Adds `a` and `b`, and writes the operands and the sum as one line.
pub fn soma(a: i32, b: i32, saida: &mut Saida) -> (r: i32)
    requires
        i32::MIN <= a + b <= i32::MAX,
    ensures
        r == a + b,
        final(saida)@ == old(saida)@.push(linha_soma(a as int, b as int)),
{
    let mut linha = String::from_str("A soma de ");
    anexa_decimal(&mut linha, a as i64);
    linha.append(" + ");
    anexa_decimal(&mut linha, b as i64);
    linha.append(" é: ");
    anexa_decimal(&mut linha, (a + b) as i64);
    saida.escreve(linha);
    a + b
}

} // verus!
