//! The paragraph index: the "label: value" paragraphs of a document, keyed by
//! normalized label.
use vstd::prelude::*;
use crate::texto::{
    aparado, aparar, minusculas, para_minusculas, primeira_posicao, separar_no_primeiro, visoes,
};

verus! {

/// The index after the paragraph `t`: it is split at its first colon, and the
/// pair is kept when there is a colon and the part after it is not empty. The
/// label is trimmed and lowercased, the value trimmed; a later pair overwrites
/// an earlier one with the same label.
pub open spec fn com_paragrafo(m: Map<Seq<char>, Seq<char>>, t: Seq<char>) -> Map<
    Seq<char>,
    Seq<char>,
> {
    match primeira_posicao(t, ':') {
        Some(i) => if t.skip(i + 1).len() > 0 {
            m.insert(minusculas(aparado(t.take(i))), aparado(t.skip(i + 1)))
        } else {
            m
        },
        None => m,
    }
}

/// The index of the paragraphs `ts`, taken in order.
pub open spec fn indice_de(ts: Seq<Seq<char>>) -> Map<Seq<char>, Seq<char>>
    decreases ts.len(),
{
    if ts.len() == 0 {
        Map::empty()
    } else {
        com_paragrafo(indice_de(ts.drop_last()), ts.last())
    }
}

/// A map from label to value, with unique labels.
pub struct IndiceParagrafos {
    entradas: Vec<(String, String)>,
    mapa: Ghost<Map<Seq<char>, Seq<char>>>,
}

impl View for IndiceParagrafos {
    type V = Map<Seq<char>, Seq<char>>;

    closed spec fn view(&self) -> Map<Seq<char>, Seq<char>> {
        self.mapa@
    }
}

impl IndiceParagrafos {
    /// Each entry is in the map under its label, each label of the map has an
    /// entry, and no two entries share a label.
    pub closed spec fn bem_formado(&self) -> bool {
        &&& forall|i: int|
            0 <= i < self.entradas@.len() ==> #[trigger] self.mapa@.contains_key(
                self.entradas@[i].0@,
            ) && self.mapa@[self.entradas@[i].0@] == self.entradas@[i].1@
        &&& forall|k: Seq<char>|
            #[trigger] self.mapa@.contains_key(k) ==> exists|i: int|
                0 <= i < self.entradas@.len() && self.entradas@[i].0@ == k
        &&& forall|i: int, j: int|
            0 <= i < j < self.entradas@.len() ==> self.entradas@[i].0@
                != self.entradas@[j].0@
        &&& self.mapa@.dom().finite()
        &&& self.mapa@.dom().len() == self.entradas@.len()
    }

    /// The empty index.
    pub fn new() -> (r: IndiceParagrafos)
        ensures
            r.bem_formado(),
            r@ == Map::<Seq<char>, Seq<char>>::empty(),
    {
        IndiceParagrafos { entradas: Vec::new(), mapa: Ghost(Map::empty()) }
    }

    /// The position of the entry labelled `chave`.
    fn posicao(&self, chave: &str) -> (r: Option<usize>)
        requires
            self.bem_formado(),
        ensures
            r is None <==> !self@.contains_key(chave@),
            r matches Some(i) ==> i < self.entradas@.len() && self.entradas@[i as int].0@
                == chave@,
    {
        let procurada = String::from_str(chave);
        let mut i: usize = 0;
        while i < self.entradas.len()
            invariant
                i <= self.entradas@.len(),
                procurada@ == chave@,
                self.bem_formado(),
                forall|j: int| 0 <= j < i ==> self.entradas@[j].0@ != chave@,
            decreases self.entradas.len() - i,
        {
            if self.entradas[i].0 == procurada {
                assert(self.mapa@.contains_key(self.entradas@[i as int].0@));
                return Some(i);
            }
            i = i + 1;
        }
        None
    }

    /// The value under `chave`.
    pub fn get(&self, chave: &str) -> (r: Option<&String>)
        requires
            self.bem_formado(),
        ensures
            r is Some <==> self@.contains_key(chave@),
            r matches Some(v) ==> v@ == self@[chave@],
    {
        match self.posicao(chave) {
            Some(i) => Some(&self.entradas[i].1),
            None => None,
        }
    }

    /// The number of labels.
    pub fn len(&self) -> (r: usize)
        requires
            self.bem_formado(),
        ensures
            r == self@.len(),
    {
        self.entradas.len()
    }

    /// Puts `valor` under `chave`, replacing what was there.
    pub fn inserir(&mut self, chave: String, valor: String)
        requires
            old(self).bem_formado(),
        ensures
            final(self).bem_formado(),
            final(self)@ == old(self)@.insert(chave@, valor@),
    {
        let ghost novo = self.mapa@.insert(chave@, valor@);
        match self.posicao(chave.as_str()) {
            Some(i) => {
                let ghost antes = self.entradas@;
                assert(novo.dom() =~= self.mapa@.dom());
                self.entradas.set(i, (chave, valor));
                self.mapa = Ghost(novo);
                assert forall|k: Seq<char>| #[trigger] novo.contains_key(k) implies exists|j: int|
                    0 <= j < self.entradas@.len() && self.entradas@[j].0@ == k by {
                    if k != antes[i as int].0@ {
                        let j = choose|j: int| 0 <= j < antes.len() && antes[j].0@ == k;
                        assert(self.entradas@[j].0@ == k);
                    } else {
                        assert(self.entradas@[i as int].0@ == k);
                    }
                }
            },
            None => {
                let ghost antes = self.entradas@;
                self.entradas.push((chave, valor));
                self.mapa = Ghost(novo);
                assert forall|k: Seq<char>| #[trigger] novo.contains_key(k) implies exists|j: int|
                    0 <= j < self.entradas@.len() && self.entradas@[j].0@ == k by {
                    if k != self.entradas@[antes.len() as int].0@ {
                        let j = choose|j: int| 0 <= j < antes.len() && antes[j].0@ == k;
                        assert(self.entradas@[j].0@ == k);
                    }
                }
                assert forall|j: int| 0 <= j < antes.len() implies #[trigger] self.entradas@[j].0@
                    != self.entradas@[antes.len() as int].0@ by {
                    assert(old(self).mapa@.contains_key(antes[j].0@));
                }
            },
        }
    }

    /// The index of the paragraph texts `textos`, taken in order.
    pub fn de_textos(textos: &Vec<String>) -> (r: IndiceParagrafos)
        ensures
            r.bem_formado(),
            r@ == indice_de(visoes(textos@)),
    {
        let mut r = IndiceParagrafos::new();
        let mut i: usize = 0;
        while i < textos.len()
            invariant
                i <= textos@.len(),
                r.bem_formado(),
                r@ == indice_de(visoes(textos@).take(i as int)),
            decreases textos.len() - i,
        {
            let t = textos[i].as_str();
            assert(visoes(textos@).take(i + 1).drop_last() =~= visoes(textos@).take(i as int));
            assert(visoes(textos@).take(i + 1).last() == t@);
            match separar_no_primeiro(t, ':') {
                Some(par) => {
                    if !par.1.as_str().is_empty() {
                        let rotulo = aparar(par.0.as_str());
                        let chave = para_minusculas(rotulo.as_str());
                        let valor = aparar(par.1.as_str());
                        r.inserir(chave, valor);
                    }
                },
                None => {},
            }
            i = i + 1;
        }
        assert(visoes(textos@).take(i as int) =~= visoes(textos@));
        r
    }
}

} // verus!
