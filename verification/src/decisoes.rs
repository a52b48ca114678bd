use crate::saida::Saida;
use crate::texto::{anexa_decimal, decimal, mesmo_texto};
use vstd::prelude::*;
use vstd::string::StringExecFns;

verus! {

/// Whether a person of age `idade` is of age.
pub open spec fn eh_maior(idade: int) -> bool {
    idade >= 18
}

/// The answer at the door: adults enter; those over 16 enter with the
/// guardian's consent; everyone else is refused.
pub open spec fn resposta_entrada(idade: int, responsavel_autorizou: bool) -> Seq<char> {
    if eh_maior(idade) {
        "Pode entrar na balada"@
    } else if idade > 16 && responsavel_autorizou {
        "Pode entrar com assinatura do responsável"@
    } else {
        "Não pode entrar na balada"@
    }
}

/// The word for the age group.
pub open spec fn palavra_faixa(idade: int) -> Seq<char> {
    if eh_maior(idade) {
        "maior"@
    } else {
        "menor"@
    }
}

/// The line that names the age group of `idade`.
pub open spec fn linha_faixa(idade: int) -> Seq<char> {
    "É "@ + palavra_faixa(idade) + " de idade"@
}

/// The kind of the language called `linguagem`.
pub open spec fn resposta_linguagem(linguagem: Seq<char>) -> Seq<char> {
    if linguagem == "Rust"@ {
        "Linguagem de programação"@
    } else if linguagem == "Python"@ {
        "Linguagem de script"@
    } else if linguagem == "C"@ || linguagem == "C++"@ {
        "Linguagem de baixo nível"@
    } else {
        "Linguagem desconhecida"@
    }
}

/// Names the kind of the language called `linguagem`: an exact name, one of
/// two alternatives, or the fallback for a name that is not known.
pub fn tipo_linguagem(linguagem: &str) -> (r: &'static str)
    ensures
        r@ == resposta_linguagem(linguagem@),
{
    if mesmo_texto(linguagem, "Rust") {
        "Linguagem de programação"
    } else if mesmo_texto(linguagem, "Python") {
        "Linguagem de script"
    } else if mesmo_texto(linguagem, "C") || mesmo_texto(linguagem, "C++") {
        "Linguagem de baixo nível"
    } else {
        "Linguagem desconhecida"
    }
}

/// Answers at the door for a person of age `idade`.
pub fn entrada(idade: i32, responsavel_autorizou: bool) -> (r: &'static str)
    ensures
        r@ == resposta_entrada(idade as int, responsavel_autorizou),
{
    let maior = idade >= 18;
    if maior {
        "Pode entrar na balada"
    } else if idade > 16 && responsavel_autorizou {
        "Pode entrar com assinatura do responsável"
    } else {
        "Não pode entrar na balada"
    }
}

/// The word for the age group of `idade`.
pub fn faixa(idade: i32) -> (r: &'static str)
    ensures
        r@ == palavra_faixa(idade as int),
{
    if idade >= 18 {
        "maior"
    } else {
        "menor"
    }
}

/// What `condicionais` writes for a person of age `idade` and a language
/// called `linguagem`.
pub open spec fn linhas_condicionais(
    idade: int,
    responsavel_autorizou: bool,
    linguagem: Seq<char>,
) -> Seq<Seq<char>> {
    seq![
        resposta_entrada(idade, responsavel_autorizou),
        linha_faixa(idade),
        resposta_linguagem(linguagem),
    ]
}

/// Decides for an eighteen-year-old with the guardian's consent, names the age
/// group, and names the kind of the language "Rust".
pub fn condicionais(saida: &mut Saida)
    ensures
        final(saida)@ == old(saida)@ + linhas_condicionais(18, true, "Rust"@),
{
    let idade: i32 = 18;
    let responsavel_autorizou = true;
    saida.escreve(String::from_str(entrada(idade, responsavel_autorizou)));

    let condicao = faixa(idade);
    let mut linha = String::from_str("É ");
    linha.append(condicao);
    linha.append(" de idade");
    saida.escreve(linha);

    let linguagem = "Rust";
    saida.escreve(String::from_str(tipo_linguagem(linguagem)));
    assert(final(saida)@ =~= old(saida)@ + linhas_condicionais(18, true, "Rust"@));
}

/// The name of the quantity `x`. The rules are tried in this order and the
/// first that applies decides: exactly one; two or three; four to ten; any
/// other even number; everything else.
pub open spec fn nome_quantidade(x: int) -> Seq<char> {
    if x == 1 {
        "Pouco"@
    } else if x == 2 || x == 3 {
        "Um pouquinho"@
    } else if 4 <= x <= 10 {
        "Um bocado"@
    } else if x % 2 == 0 {
        "Uma boa quantidade Par"@
    } else {
        "Muuuuuito"@
    }
}

/// The line that `pattern_matching` writes for `x`.
pub open spec fn linha_quantidade(x: int) -> Seq<char> {
    decimal(x) + ": "@ + nome_quantidade(x)
}

/// The lines for `de`, `de + 1`, and so on up to `ate`, in that order; none
/// where `ate` is less than `de`.
pub open spec fn linhas_quantidades(de: int, ate: int) -> Seq<Seq<char>>
    decreases ate - de + 1,
{
    if ate < de {
        Seq::empty()
    } else {
        linhas_quantidades(de, ate - 1).push(linha_quantidade(ate))
    }
}

/// Names the quantity `x`.
pub fn categoria(x: i32) -> (r: &'static str)
    ensures
        r@ == nome_quantidade(x as int),
{
    if x == 1 {
        "Pouco"
    } else if x == 2 || x == 3 {
        "Um pouquinho"
    } else if 4 <= x && x <= 10 {
        "Um bocado"
    } else if x % 2 == 0 {
        "Uma boa quantidade Par"
    } else {
        "Muuuuuito"
    }
}

/// Writes, for each of the numbers one to twenty, the number and its name.
pub fn pattern_matching(saida: &mut Saida)
    ensures
        final(saida)@ == old(saida)@ + linhas_quantidades(1, 20),
{
    let mut x: i32 = 1;
    assert(saida@ =~= old(saida)@ + linhas_quantidades(1, 0));
    while x <= 20
        invariant
            1 <= x <= 21,
            saida@ == old(saida)@ + linhas_quantidades(1, x - 1),
        decreases 21 - x,
    {
        let mut linha = String::new();
        anexa_decimal(&mut linha, x as i64);
        linha.append(": ");
        linha.append(categoria(x));
        assert(linha@ =~= linha_quantidade(x as int));
        saida.escreve(linha);
        assert(saida@ =~= old(saida)@ + linhas_quantidades(1, x as int));
        x = x + 1;
    }
}

} // verus!
