use crate::decisoes::{condicionais, linhas_condicionais, linhas_quantidades, pattern_matching};
use crate::emprestimo::{ownership, texto_roubado};
use crate::erros::{erros, linha_relato, mensagem_fatal, VALOR};
use crate::escopo::{linha_rotulada, linha_soma, linhas_sombra, rotula, soma, sombra};
use crate::repeticoes::{linhas_repeticoes, repeticoes};
use crate::saida::Saida;
use vstd::prelude::*;

verus! {

/// Everything that the demonstrations write, in order. It depends on nothing:
/// every run writes these lines and no others.
pub open spec fn transcricao() -> Seq<Seq<char>> {
    linhas_sombra() + seq![linha_soma(10, 20), linha_rotulada("Soma = "@, 30)]
        + linhas_condicionais(18, true, "Rust"@) + linhas_repeticoes() + seq![
        texto_roubado("Gabriel"@),
        texto_roubado("Gabriel"@),
    ] + linhas_quantidades(1, 20) + seq![linha_relato(Ok(VALOR as int))]
}

/// Runs the demonstrations one after the other, with nothing between them, and
/// hands back the message with which the caller is to give the run up.
pub fn demonstracoes(saida: &mut Saida) -> (fatal: String)
    ensures
        final(saida)@ == old(saida)@ + transcricao(),
        fatal@ == mensagem_fatal(),
{
    sombra(saida);
    let total = soma(10, 20, saida);
    saida.escreve(rotula("Soma = ", total as i64));
    condicionais(saida);
    repeticoes(saida);
    ownership(saida);
    pattern_matching(saida);
    let fatal = erros(saida);
    assert(final(saida)@ =~= old(saida)@ + transcricao());
    fatal
}

} // verus!
