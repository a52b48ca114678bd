use vstd::prelude::*;

verus! {

/// The console as a value: the lines written so far, oldest first.
pub struct Saida {
    linhas: Vec<String>,
}

impl View for Saida {
    type V = Seq<Seq<char>>;

    closed spec fn view(&self) -> Seq<Seq<char>> {
        self.linhas@.map_values(|linha: String| linha@)
    }
}

impl Saida {
    /// A console on which nothing was written yet.
    pub fn new() -> (r: Saida)
        ensures
            r@ == Seq::<Seq<char>>::empty(),
    {
        let r = Saida { linhas: Vec::new() };
        assert(r@ =~= Seq::<Seq<char>>::empty());
        r
    }

    /// Writes `linha` as the next line.
    pub fn escreve(&mut self, linha: String)
        ensures
            final(self)@ == old(self)@.push(linha@),
    {
        self.linhas.push(linha);
        assert(final(self)@ =~= old(self)@.push(linha@));
    }

    /// The number of lines written.
    pub fn len(&self) -> (n: usize)
        ensures
            n == self@.len(),
    {
        self.linhas.len()
    }

    /// The line at position `i`, counted from zero.
    pub fn linha(&self, i: usize) -> (r: &String)
        requires
            i < self@.len(),
        ensures
            r@ == self@[i as int],
    {
        &self.linhas[i]
    }

    /// Hands the lines out, oldest first.
    pub fn into_linhas(self) -> (r: Vec<String>)
        ensures
            r@.len() == self@.len(),
            forall|i: int| 0 <= i < r@.len() ==> (#[trigger] r@[i])@ == self@[i],
    {
        self.linhas
    }
}

} // verus!
