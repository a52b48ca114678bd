pub mod decisoes;
pub mod emprestimo;
pub mod erros;
pub mod escopo;
pub mod repeticoes;
pub mod roteiro;
pub mod saida;
pub mod texto;
