use crate::saida::Saida;
use crate::texto::{anexa_decimal, decimal};
use vstd::prelude::*;
use vstd::string::StringExecFns;

verus! {

/// The value that `resultado` judges.
pub const VALOR: i32 = 10;

/// The outcome for `valor`, with the error's text as characters: the value
/// itself when it is positive, the complaint otherwise.
pub open spec fn juizo(valor: int) -> Result<int, Seq<char>> {
    if valor > 0 {
        Ok(valor)
    } else {
        Err("Valor inválido"@)
    }
}

/// The one line that reports an outcome.
pub open spec fn linha_relato(r: Result<int, Seq<char>>) -> Seq<char> {
    match r {
        Ok(valor) => "Valor: "@ + decimal(valor),
        Err(erro) => "Erro: "@ + erro,
    }
}

/// The message with which the run is given up.
pub open spec fn mensagem_fatal() -> Seq<char> {
    "Erro proposital"@
}

/// Judges `valor`: a positive value is handed back, any other is an error.
pub fn avalia(valor: i32) -> (r: Result<i32, String>)
    ensures
        match r {
            Ok(v) => juizo(valor as int) == Ok::<int, Seq<char>>(v as int),
            Err(e) => juizo(valor as int) == Err::<int, Seq<char>>(e@),
        },
{
    if valor > 0 {
        Ok(valor)
    } else {
        Err(String::from_str("Valor inválido"))
    }
}

/// Judges the fixed value.
pub fn resultado() -> (r: Result<i32, String>)
    ensures
        r == Ok::<i32, String>(VALOR),
{
    avalia(VALOR)
}

/// Builds the line that reports `r`.
pub fn relata(r: &Result<i32, String>) -> (linha: String)
    ensures
        linha@ == match *r {
            Ok(v) => linha_relato(Ok(v as int)),
            Err(e) => linha_relato(Err(e@)),
        },
{
    match r {
        Ok(valor) => {
            let mut linha = String::from_str("Valor: ");
            anexa_decimal(&mut linha, *valor as i64);
            linha
        },
        Err(erro) => {
            let mut linha = String::from_str("Erro: ");
            linha.append(erro.as_str());
            linha
        },
    }
}

/// Reports the outcome of `resultado` in one line and hands back the message
/// with which the caller is to give the run up.
pub fn erros(saida: &mut Saida) -> (fatal: String)
    ensures
        final(saida)@ == old(saida)@.push(linha_relato(Ok(VALOR as int))),
        fatal@ == mensagem_fatal(),
{
    let r = resultado();
    saida.escreve(relata(&r));
    String::from_str("Erro proposital")
}

} // verus!
