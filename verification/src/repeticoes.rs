use crate::saida::Saida;
use crate::texto::{anexa_decimal, decimal};
use vstd::prelude::*;
use vstd::string::StringExecFns;

verus! {

/// One line of a multiplication table: the count, the multiplier and their
/// product.
pub open spec fn linha_produto(contador: int, multiplicador: int) -> Seq<char> {
    decimal(contador) + " x "@ + decimal(multiplicador) + " = "@ + decimal(
        contador * multiplicador,
    )
}

/// The table of `multiplicador` for the counts one to `ate`, in rising order.
pub open spec fn tabuada(multiplicador: int, ate: int) -> Seq<Seq<char>>
    decreases ate,
{
    if ate <= 0 {
        Seq::empty()
    } else {
        tabuada(multiplicador, ate - 1).push(linha_produto(ate, multiplicador))
    }
}

/// The table of `multiplicador` for the counts one to `ate`, in rising order,
/// without the line of the count `pulado`.
pub open spec fn tabuada_sem(multiplicador: int, ate: int, pulado: int) -> Seq<Seq<char>>
    decreases ate,
{
    if ate <= 0 {
        Seq::empty()
    } else if ate == pulado {
        tabuada_sem(multiplicador, ate - 1, pulado)
    } else {
        tabuada_sem(multiplicador, ate - 1, pulado).push(linha_produto(ate, multiplicador))
    }
}

/// What `repeticoes` writes: the table of five without the line of five, then
/// the whole table twice, with the marks that part the three loops.
pub open spec fn linhas_repeticoes() -> Seq<Seq<char>> {
    tabuada_sem(5, 10, 5) + seq!["Fim do while"@, "Inicio do loop"@] + tabuada(5, 10)
        + seq!["Fim do loop"@, "Inicio do for"@] + tabuada(5, 10)
}

/// Builds one line of a multiplication table.
pub fn produto(contador: u8, multiplicador: u8) -> (r: String)
    requires
        contador * multiplicador <= u8::MAX,
    ensures
        r@ == linha_produto(contador as int, multiplicador as int),
{
    let mut r = String::new();
    anexa_decimal(&mut r, contador as i64);
    r.append(" x ");
    anexa_decimal(&mut r, multiplicador as i64);
    r.append(" = ");
    anexa_decimal(&mut r, (contador * multiplicador) as i64);
    assert(r@ =~= linha_produto(contador as int, multiplicador as int));
    r
}

/// Counts to ten three times over: with a test before each round and the
/// round of five skipped, with a test at the end of each round, and over a
/// range with both of its ends.
pub fn repeticoes(saida: &mut Saida)
    ensures
        final(saida)@ == old(saida)@ + linhas_repeticoes(),
{
    let multiplicador: u8 = 5;

    let mut contador: u8 = 0;
    assert(saida@ =~= old(saida)@ + tabuada_sem(5, 0, 5));
    while contador < 10
        invariant
            contador <= 10,
            multiplicador == 5,
            saida@ == old(saida)@ + tabuada_sem(5, contador as int, 5),
        decreases 10 - contador,
    {
        contador += 1;

        if contador == 5 {
            continue;
        }
        assert(contador * multiplicador <= 50) by (nonlinear_arith)
            requires
                contador <= 10,
                multiplicador == 5,
        ;
        saida.escreve(produto(contador, multiplicador));
        assert(saida@ =~= old(saida)@ + tabuada_sem(5, contador as int, 5));
    }

    saida.escreve(String::from_str("Fim do while"));

    saida.escreve(String::from_str("Inicio do loop"));
    let ghost segunda = saida@;

    contador = 0;
    assert(saida@ =~= segunda + tabuada(5, 0));
    loop
        invariant_except_break
            contador < 10,
        invariant
            contador <= 10,
            multiplicador == 5,
            saida@ == segunda + tabuada(5, contador as int),
        ensures
            contador == 10,
        decreases 10 - contador,
    {
        contador += 1;
        assert(contador * multiplicador <= 50) by (nonlinear_arith)
            requires
                contador <= 10,
                multiplicador == 5,
        ;
        saida.escreve(produto(contador, multiplicador));
        assert(saida@ =~= segunda + tabuada(5, contador as int));

        if contador == 10 {
            break;
        }
    }

    saida.escreve(String::from_str("Fim do loop"));

    saida.escreve(String::from_str("Inicio do for"));
    let ghost terceira = saida@;

    let mut i: u8 = 1;
    assert(saida@ =~= terceira + tabuada(5, 0));
    while i <= 10
        invariant
            1 <= i <= 11,
            multiplicador == 5,
            saida@ == terceira + tabuada(5, i - 1),
        decreases 11 - i,
    {
        assert(i * multiplicador <= 50) by (nonlinear_arith)
            requires
                i <= 10,
                multiplicador == 5,
        ;
        saida.escreve(produto(i, multiplicador));
        assert(saida@ =~= terceira + tabuada(5, i as int));
        i += 1;
    }
    assert(final(saida)@ =~= old(saida)@ + linhas_repeticoes());
}

} // verus!
