use crate::saida::Saida;
use vstd::prelude::*;
use vstd::string::StringExecFns;

verus! {

/// The text that `rouba` leaves in a buffer that held `antes`.
pub open spec fn texto_roubado(antes: Seq<char>) -> Seq<char> {
    antes + " Vieira"@
}

/// Appends a fixed surname to the caller's buffer, in place, and writes the
/// buffer as it then stands.
pub fn rouba(string_roubada: &mut String, saida: &mut Saida)
    ensures
        final(string_roubada)@ == texto_roubado(old(string_roubada)@),
        final(saida)@ == old(saida)@.push(final(string_roubada)@),
{
    string_roubada.append(" Vieira");
    saida.escreve(string_roubada.clone());
}

/// Lends a buffer to `rouba` and writes it again once the loan is over: the
/// second line shows the change that `rouba` made.
pub fn ownership(saida: &mut Saida)
    ensures
        final(saida)@ == old(saida)@ + seq![
            texto_roubado("Gabriel"@),
            texto_roubado("Gabriel"@),
        ],
{
    let mut uma_string = String::from_str("Gabriel");
    rouba(&mut uma_string, saida);

    saida.escreve(uma_string);
    assert(final(saida)@ =~= old(saida)@ + seq![
        texto_roubado("Gabriel"@),
        texto_roubado("Gabriel"@),
    ]);
}

} // verus!
