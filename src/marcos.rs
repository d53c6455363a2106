//! Fields read from the document's landmarks rather than from "label: value"
//! paragraphs, and the section locator.
use vstd::prelude::*;
use crate::diagnostico::{diagnostico, registros, Diagnostico, DiagnosticoV, Motivo};
use crate::extrator::Extrator;
use crate::pagina::{Pagina, SecaoV};
use crate::texto::{aparado, aparar, analisar_inteiro, inteiro_ate, minusculas, para_minusculas, visoes};

verus! {

/// Whether the heading of `s`, trimmed and lowercased, is `nome`.
pub open spec fn titulo_confere(s: SecaoV, nome: Seq<char>) -> bool {
    minusculas(aparado(s.titulo)) == nome
}

/// The position of the first section whose heading is `nome`.
pub open spec fn primeira_secao(ss: Seq<SecaoV>, nome: Seq<char>) -> Option<int>
    decreases ss.len(),
{
    if ss.len() == 0 {
        None
    } else {
        match primeira_secao(ss.drop_last(), nome) {
            Some(i) => Some(i),
            None => if titulo_confere(ss.last(), nome) {
                Some(ss.len() - 1)
            } else {
                None
            },
        }
    }
}

/// The paragraphs of the section named `nome`: `None` when no heading matches,
/// or when the first that matches has no enclosing element.
pub open spec fn secao(ss: Seq<SecaoV>, nome: Seq<char>) -> Option<Seq<Seq<char>>> {
    match primeira_secao(ss, nome) {
        Some(i) => ss[i].paragrafos,
        None => None,
    }
}

/// The text of a landmark, or empty.
pub open spec fn texto_marco(o: Option<Seq<char>>) -> Seq<char> {
    match o {
        Some(t) => t,
        None => Seq::empty(),
    }
}

/// The diagnostics of reading a landmark's text: one warning when it is
/// absent, one when its text is empty.
pub open spec fn diagnosticos_marco(ca: u32, o: Option<Seq<char>>, assunto: Seq<char>) -> Seq<DiagnosticoV> {
    match o {
        Some(t) => if t.len() == 0 {
            seq![diagnostico(ca, Motivo::SemConteudo, assunto)]
        } else {
            Seq::empty()
        },
        None => seq![diagnostico(ca, Motivo::NaoEncontrado, assunto)],
    }
}

/// The standards: the text nodes of their container, or none.
pub open spec fn normas_de(o: Option<Seq<Seq<char>>>) -> Seq<Seq<char>> {
    match o {
        Some(v) => v,
        None => Seq::empty(),
    }
}

/// The diagnostics of reading the standards.
pub open spec fn diagnosticos_normas(ca: u32, o: Option<Seq<Seq<char>>>) -> Seq<DiagnosticoV> {
    match o {
        Some(v) => if v.len() == 0 {
            seq![diagnostico(ca, Motivo::SemConteudo, "normas"@)]
        } else {
            Seq::empty()
        },
        None => seq![diagnostico(ca, Motivo::NaoEncontrado, "normas"@)],
    }
}

/// The full description: the first paragraph of the section
/// "descrição completa", or empty.
pub open spec fn descricao_completa_de(ss: Seq<SecaoV>) -> Seq<char> {
    match secao(ss, "descrição completa"@) {
        Some(ps) => if ps.len() > 0 {
            ps[0]
        } else {
            Seq::empty()
        },
        None => Seq::empty(),
    }
}

/// The diagnostics of reading the full description: one warning when the
/// section is missing, one when it holds no paragraph.
pub open spec fn diagnosticos_descricao_completa(ca: u32, ss: Seq<SecaoV>) -> Seq<DiagnosticoV> {
    match secao(ss, "descrição completa"@) {
        Some(ps) => if ps.len() > 0 {
            Seq::empty()
        } else {
            seq![diagnostico(ca, Motivo::SemConteudo, "descrição completa"@)]
        },
        None => seq![diagnostico(ca, Motivo::NaoEncontrado, "descrição completa"@)],
    }
}

/// The manufacturer's count of certificates: the text read as a number of at
/// most 65535, or 0.
pub open spec fn quantidade_de(o: Option<Seq<char>>) -> u16 {
    match o {
        Some(t) => match inteiro_ate(t, u16::MAX as nat) {
            Some(v) => v as u16,
            None => 0,
        },
        None => 0,
    }
}

/// The diagnostics of reading the manufacturer's count of certificates.
pub open spec fn diagnosticos_quantidade(ca: u32, o: Option<Seq<char>>) -> Seq<DiagnosticoV> {
    match o {
        Some(t) => if inteiro_ate(t, u16::MAX as nat) is Some {
            Seq::empty()
        } else {
            seq![diagnostico(ca, Motivo::ErroDeParsing, "quantidade de CAs do fabricante"@)]
        },
        None => seq![diagnostico(ca, Motivo::NaoEncontrado, "quantidade de CAs do fabricante"@)],
    }
}

/// The diagnostics of reading the link to the manufacturer's profile.
pub open spec fn diagnosticos_link(ca: u32, o: Option<Seq<char>>) -> Seq<DiagnosticoV> {
    match o {
        Some(_) => Seq::empty(),
        None => seq![diagnostico(ca, Motivo::NaoEncontrado, "link do fabricante"@)],
    }
}

proof fn lemma_primeira_secao_prefixo(ss: Seq<SecaoV>, nome: Seq<char>, k: int)
    requires
        0 <= k <= ss.len(),
        primeira_secao(ss.take(k), nome) is Some,
    ensures
        primeira_secao(ss, nome) == primeira_secao(ss.take(k), nome),
    decreases ss.len() - k,
{
    if k < ss.len() {
        assert(ss.take(k + 1).drop_last() =~= ss.take(k));
        lemma_primeira_secao_prefixo(ss, nome, k + 1);
    } else {
        assert(ss.take(k) =~= ss);
    }
}

proof fn lemma_anexar(s: Seq<DiagnosticoV>, v: Seq<Diagnostico>, d: Diagnostico)
    requires
        registros(v) == s,
    ensures
        registros(v.push(d)) == s + seq![d@],
{
    assert(registros(v.push(d)) =~= s + seq![d@]);
}

proof fn lemma_nada(s: Seq<DiagnosticoV>)
    ensures
        s + Seq::<DiagnosticoV>::empty() == s,
{
    assert(s + Seq::<DiagnosticoV>::empty() =~= s);
}

impl Extrator {
    /// Records a diagnostic about `assunto`.
    fn anotar(&mut self, motivo: Motivo, assunto: &str)
        ensures
            final(self).ca == old(self).ca,
            registros(final(self).diagnosticos@) == registros(old(self).diagnosticos@) + seq![
                diagnostico(old(self).ca, motivo, assunto@),
            ],
    {
        let d = Diagnostico::novo(self.ca, motivo, assunto, "");
        proof {
            lemma_anexar(registros(self.diagnosticos@), self.diagnosticos@, d);
        }
        self.diagnosticos.push(d);
    }

    /// The paragraphs of the section whose heading, trimmed and lowercased,
    /// is `nome`: the first such heading wins. `None` when no heading matches,
    /// or when the one that matches has no enclosing element; the fields of
    /// such a section then report themselves as missing.
    pub fn secao_com_h3<'p>(&self, pagina: &'p Pagina, nome: &str) -> (r: Option<&'p Vec<String>>)
        ensures
            match r {
                Some(v) => secao(pagina@.secoes, nome@) == Some(visoes(v@)),
                None => secao(pagina@.secoes, nome@) is None,
            },
    {
        let ghost ss = pagina@.secoes;
        let procurado = String::from_str(nome);
        let mut i: usize = 0;
        while i < pagina.secoes.len()
            invariant
                i <= pagina.secoes@.len(),
                ss == pagina@.secoes,
                procurado@ == nome@,
                primeira_secao(ss.take(i as int), nome@) is None,
            decreases pagina.secoes.len() - i,
        {
            let aparado = aparar(pagina.secoes[i].titulo.as_str());
            let titulo = para_minusculas(aparado.as_str());
            proof {
                assert(ss.take(i + 1).drop_last() =~= ss.take(i as int));
                assert(ss[i as int] == pagina.secoes@[i as int]@);
            }
            if titulo == procurado {
                proof {
                    lemma_primeira_secao_prefixo(ss, nome@, i + 1);
                }
                return match &pagina.secoes[i].paragrafos {
                    Some(v) => Some(v),
                    None => None,
                };
            }
            i = i + 1;
        }
        proof {
            assert(ss.take(i as int) =~= ss);
        }
        None
    }

    /// The text of a landmark: empty, with a warning, when it is absent or
    /// holds no text.
    pub fn so_com_seletor(&mut self, texto: &Option<String>, seletor: &str) -> (r: String)
        ensures
            final(self).ca == old(self).ca,
            r@ == texto_marco(crate::pagina::opcao(*texto)),
            registros(final(self).diagnosticos@) == registros(old(self).diagnosticos@)
                + diagnosticos_marco(old(self).ca, crate::pagina::opcao(*texto), seletor@),
    {
        match texto {
            Some(t) => {
                if t.as_str().is_empty() {
                    self.anotar(Motivo::SemConteudo, seletor);
                    String::new()
                } else {
                    proof {
                        lemma_nada(registros(self.diagnosticos@));
                    }
                    t.clone()
                }
            },
            None => {
                self.anotar(Motivo::NaoEncontrado, seletor);
                String::new()
            },
        }
    }

    /// The equipment group.
    pub fn grupo(&mut self, pagina: &Pagina) -> (r: String)
        ensures
            final(self).ca == old(self).ca,
            r@ == texto_marco(pagina@.grupo),
            registros(final(self).diagnosticos@) == registros(old(self).diagnosticos@)
                + diagnosticos_marco(old(self).ca, pagina@.grupo, ".grupo-epi-desc"@),
    {
        self.so_com_seletor(&pagina.grupo, ".grupo-epi-desc")
    }

    /// The short description: the text of the top-level heading.
    pub fn descricao(&mut self, pagina: &Pagina) -> (r: String)
        ensures
            final(self).ca == old(self).ca,
            r@ == texto_marco(pagina@.titulo),
            registros(final(self).diagnosticos@) == registros(old(self).diagnosticos@)
                + diagnosticos_marco(old(self).ca, pagina@.titulo, "h1"@),
    {
        self.so_com_seletor(&pagina.titulo, "h1")
    }

    /// The applicable standards.
    pub fn normas(&mut self, pagina: &Pagina) -> (r: Vec<String>)
        ensures
            final(self).ca == old(self).ca,
            visoes(r@) == normas_de(pagina@.normas),
            registros(final(self).diagnosticos@) == registros(old(self).diagnosticos@)
                + diagnosticos_normas(old(self).ca, pagina@.normas),
    {
        match &pagina.normas {
            Some(v) => {
                if v.len() == 0 {
                    self.anotar(Motivo::SemConteudo, "normas");
                    let r: Vec<String> = Vec::new();
                    assert(visoes(r@) =~= Seq::<Seq<char>>::empty());
                    r
                } else {
                    proof {
                        lemma_nada(registros(self.diagnosticos@));
                    }
                    v.clone()
                }
            },
            None => {
                self.anotar(Motivo::NaoEncontrado, "normas");
                let r: Vec<String> = Vec::new();
                assert(visoes(r@) =~= Seq::<Seq<char>>::empty());
                r
            },
        }
    }

    /// The full description: the first paragraph of the section
    /// "descrição completa".
    pub fn descricao_completa(&mut self, pagina: &Pagina) -> (r: String)
        ensures
            final(self).ca == old(self).ca,
            r@ == descricao_completa_de(pagina@.secoes),
            registros(final(self).diagnosticos@) == registros(old(self).diagnosticos@)
                + diagnosticos_descricao_completa(old(self).ca, pagina@.secoes),
    {
        let nome = "descrição completa";
        match self.secao_com_h3(pagina, nome) {
            Some(ps) => {
                if ps.len() > 0 {
                    proof {
                        lemma_nada(registros(self.diagnosticos@));
                    }
                    ps[0].clone()
                } else {
                    self.anotar(Motivo::SemConteudo, nome);
                    String::new()
                }
            },
            None => {
                self.anotar(Motivo::NaoEncontrado, nome);
                String::new()
            },
        }
    }

    /// The manufacturer's count of certificates.
    pub fn qtd_cas_fabricante(&mut self, pagina: &Pagina) -> (r: u16)
        ensures
            final(self).ca == old(self).ca,
            r == quantidade_de(pagina@.quantidade),
            registros(final(self).diagnosticos@) == registros(old(self).diagnosticos@)
                + diagnosticos_quantidade(old(self).ca, pagina@.quantidade),
    {
        let assunto = "quantidade de CAs do fabricante";
        match &pagina.quantidade {
            Some(t) => match analisar_inteiro(t.as_str()) {
                Some(v) => {
                    if v <= 65535 {
                        proof {
                            lemma_nada(registros(self.diagnosticos@));
                        }
                        v as u16
                    } else {
                        self.anotar(Motivo::ErroDeParsing, assunto);
                        0
                    }
                },
                None => {
                    self.anotar(Motivo::ErroDeParsing, assunto);
                    0
                },
            },
            None => {
                self.anotar(Motivo::NaoEncontrado, assunto);
                0
            },
        }
    }

    /// The link to the manufacturer's profile.
    pub fn link_fabricante(&mut self, pagina: &Pagina) -> (r: String)
        ensures
            final(self).ca == old(self).ca,
            r@ == texto_marco(pagina@.link),
            registros(final(self).diagnosticos@) == registros(old(self).diagnosticos@)
                + diagnosticos_link(old(self).ca, pagina@.link),
    {
        match &pagina.link {
            Some(h) => {
                proof {
                    lemma_nada(registros(self.diagnosticos@));
                }
                h.clone()
            },
            None => {
                self.anotar(Motivo::NaoEncontrado, "link do fabricante");
                String::new()
            },
        }
    }
}

} // verus!
