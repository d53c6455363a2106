//! What extraction reads from a parsed document, taken out of it through
//! scraper and held as plain values.
use vstd::prelude::*;
use crate::texto::visoes;
use scraper::{ElementRef, Html, Selector};

verus! {

#[verifier::external_type_specification]
#[verifier::external_body]
pub struct ExHtml(Html);

/// The text nodes of each element of `doc` that the CSS selector `seletor`
/// matches, in the order scraper's `Html::select` yields them; none when
/// `seletor` does not parse.
pub uninterp spec fn nos_de_texto(doc: Html, seletor: Seq<char>) -> Seq<Seq<Seq<char>>>;

/// For each element of `doc` that `seletor` matches, in the order of
/// `Html::select`: its text nodes, and, when its parent is an element, the
/// text nodes of each element under that parent that `seletor_filho` matches.
/// None of them when either selector does not parse.
pub uninterp spec fn cabecalhos(doc: Html, seletor: Seq<char>, seletor_filho: Seq<char>) -> Seq<
    (Seq<Seq<char>>, Option<Seq<Seq<Seq<char>>>>),
>;

/// The value of the attribute `nome` of each element of `doc` that `seletor`
/// matches, in the order of `Html::select`; none when `seletor` does not parse.
pub uninterp spec fn atributos(doc: Html, seletor: Seq<char>, nome: Seq<char>) -> Seq<
    Option<Seq<char>>,
>;

pub open spec fn visoes2(v: Seq<Vec<String>>) -> Seq<Seq<Seq<char>>> {
    v.map_values(|w: Vec<String>| visoes(w@))
}

pub open spec fn visao_cabecalho(c: (Vec<String>, Option<Vec<Vec<String>>>)) -> (
    Seq<Seq<char>>,
    Option<Seq<Seq<Seq<char>>>>,
) {
    (
        visoes(c.0@),
        match c.1 {
            Some(v) => Some(visoes2(v@)),
            None => None,
        },
    )
}

pub open spec fn visoes_cabecalhos(v: Seq<(Vec<String>, Option<Vec<Vec<String>>>)>) -> Seq<
    (Seq<Seq<char>>, Option<Seq<Seq<Seq<char>>>>),
> {
    v.map_values(|c: (Vec<String>, Option<Vec<Vec<String>>>)| visao_cabecalho(c))
}

pub open spec fn opcoes(v: Seq<Option<String>>) -> Seq<Option<Seq<char>>> {
    v.map_values(|o: Option<String>| opcao(o))
}

/// Relies on scraper's `Selector::parse`, `Html::select` and
/// `ElementRef::text`: the text nodes of each element that matches.
#[verifier::external_body]
fn ler_nos_de_texto(doc: &Html, seletor: &str) -> (r: Vec<Vec<String>>)
    ensures
        visoes2(r@) == nos_de_texto(*doc, seletor@),
{
    match Selector::parse(seletor) {
        Ok(s) => doc.select(&s).map(|e| e.text().map(|t| t.to_string()).collect()).collect(),
        Err(_) => Vec::new(),
    }
}

/// Relies on scraper's `Selector::parse`, `Html::select`, `ElementRef::text`,
/// `ElementRef::wrap` and `ElementRef::select`, and on ego_tree's
/// `NodeRef::parent`: each heading's text nodes, with the text nodes of the
/// matching elements under its parent element.
#[verifier::external_body]
fn ler_cabecalhos(doc: &Html, seletor: &str, seletor_filho: &str) -> (r: Vec<
    (Vec<String>, Option<Vec<Vec<String>>>),
>)
    ensures
        visoes_cabecalhos(r@) == cabecalhos(*doc, seletor@, seletor_filho@),
{
    match (Selector::parse(seletor), Selector::parse(seletor_filho)) {
        (Ok(s), Ok(f)) => doc.select(&s).map(|h| (
            h.text().map(|t| t.to_string()).collect(),
            h.parent().and_then(ElementRef::wrap).map(|pai| {
                pai.select(&f).map(|e| e.text().map(|t| t.to_string()).collect()).collect()
            }),
        )).collect(),
        _ => Vec::new(),
    }
}

/// Relies on scraper's `Selector::parse`, `Html::select` and
/// `ElementRef::attr`: the attribute of each element that matches.
#[verifier::external_body]
fn ler_atributos(doc: &Html, seletor: &str, nome: &str) -> (r: Vec<Option<String>>)
    ensures
        opcoes(r@) == atributos(*doc, seletor@, nome@),
{
    match Selector::parse(seletor) {
        Ok(s) => doc.select(&s).map(|e| e.attr(nome).map(|v| v.to_string())).collect(),
        Err(_) => Vec::new(),
    }
}

/// The concatenation of the strings of `s`.
pub open spec fn juntado(s: Seq<Seq<char>>) -> Seq<char>
    decreases s.len(),
{
    if s.len() == 0 {
        Seq::empty()
    } else {
        juntado(s.drop_last()) + s.last()
    }
}

/// The concatenation of `partes`.
pub fn juntar(partes: &Vec<String>) -> (r: String)
    ensures
        r@ == juntado(visoes(partes@)),
{
    let mut r = String::new();
    let mut i: usize = 0;
    while i < partes.len()
        invariant
            i <= partes@.len(),
            r@ == juntado(visoes(partes@).take(i as int)),
        decreases partes.len() - i,
    {
        assert(visoes(partes@).take(i + 1).drop_last() =~= visoes(partes@).take(i as int));
        r.append(partes[i].as_str());
        i = i + 1;
    }
    assert(visoes(partes@).take(i as int) =~= visoes(partes@));
    r
}

/// A level-three heading and the paragraphs of the element that encloses it.
#[derive(Debug)]
pub struct Secao {
    /// The text of the heading.
    pub titulo: String,
    /// The text of each paragraph of the enclosing element, in order; `None`
    /// when the heading has no enclosing element.
    pub paragrafos: Option<Vec<String>>,
}

pub struct SecaoV {
    pub titulo: Seq<char>,
    pub paragrafos: Option<Seq<Seq<char>>>,
}

impl View for Secao {
    type V = SecaoV;

    open spec fn view(&self) -> SecaoV {
        SecaoV {
            titulo: self.titulo@,
            paragrafos: match self.paragrafos {
                Some(v) => Some(visoes(v@)),
                None => None,
            },
        }
    }
}

pub open spec fn opcao(o: Option<String>) -> Option<Seq<char>> {
    match o {
        Some(s) => Some(s@),
        None => None,
    }
}

/// What extraction reads from a document.
#[derive(Debug)]
pub struct Pagina {
    /// The text of each paragraph of the document.
    pub paragrafos: Vec<String>,
    /// Each level-three heading, in document order.
    pub secoes: Vec<Secao>,
    /// The text of the first top-level heading.
    pub titulo: Option<String>,
    /// The text of the first element of class `grupo-epi-desc`.
    pub grupo: Option<String>,
    /// The text nodes of the first element of class `lista-normas`.
    pub normas: Option<Vec<String>>,
    /// The text of the first element of classes `total info load-blockui`.
    pub quantidade: Option<String>,
    /// The link of the first element whose link leads to a manufacturer's profile.
    pub link: Option<String>,
}

pub struct PaginaV {
    pub paragrafos: Seq<Seq<char>>,
    pub secoes: Seq<SecaoV>,
    pub titulo: Option<Seq<char>>,
    pub grupo: Option<Seq<char>>,
    pub normas: Option<Seq<Seq<char>>>,
    pub quantidade: Option<Seq<char>>,
    pub link: Option<Seq<char>>,
}

impl View for Pagina {
    type V = PaginaV;

    open spec fn view(&self) -> PaginaV {
        PaginaV {
            paragrafos: visoes(self.paragrafos@),
            secoes: self.secoes@.map_values(|s: Secao| s@),
            titulo: opcao(self.titulo),
            grupo: opcao(self.grupo),
            normas: match self.normas {
                Some(v) => Some(visoes(v@)),
                None => None,
            },
            quantidade: opcao(self.quantidade),
            link: opcao(self.link),
        }
    }
}

/// The concatenation of each sequence of strings.
pub open spec fn juntos(s: Seq<Seq<Seq<char>>>) -> Seq<Seq<char>> {
    s.map_values(|ns: Seq<Seq<char>>| juntado(ns))
}

/// The whole text of the first element, if any.
pub open spec fn primeiro_texto_de(s: Seq<Seq<Seq<char>>>) -> Option<Seq<char>> {
    if s.len() > 0 {
        Some(juntado(s[0]))
    } else {
        None
    }
}

/// A section, from a heading's text nodes and its parent's paragraphs.
pub open spec fn secao_de(c: (Seq<Seq<char>>, Option<Seq<Seq<Seq<char>>>>)) -> SecaoV {
    SecaoV {
        titulo: juntado(c.0),
        paragrafos: match c.1 {
            Some(ps) => Some(juntos(ps)),
            None => None,
        },
    }
}

/// What extraction reads from the document `doc`.
pub open spec fn pagina_de(doc: Html) -> PaginaV {
    let normas = nos_de_texto(doc, ".lista-normas"@);
    let links = atributos(doc, "[href*=\"https://consultaca.com/fabricantes/\"]"@, "href"@);
    PaginaV {
        paragrafos: juntos(nos_de_texto(doc, "p"@)),
        secoes: cabecalhos(doc, "h3"@, "p"@).map_values(
            |c: (Seq<Seq<char>>, Option<Seq<Seq<Seq<char>>>>)| secao_de(c),
        ),
        titulo: primeiro_texto_de(nos_de_texto(doc, "h1"@)),
        grupo: primeiro_texto_de(nos_de_texto(doc, ".grupo-epi-desc"@)),
        normas: if normas.len() > 0 {
            Some(normas[0])
        } else {
            None
        },
        quantidade: primeiro_texto_de(nos_de_texto(doc, ".total.info.load-blockui"@)),
        link: if links.len() > 0 {
            links[0]
        } else {
            None
        },
    }
}

/// The whole text of each element of `v`.
fn juntar_cada(v: &Vec<Vec<String>>) -> (r: Vec<String>)
    ensures
        visoes(r@) == juntos(visoes2(v@)),
{
    let mut r: Vec<String> = Vec::new();
    let mut i: usize = 0;
    while i < v.len()
        invariant
            i <= v@.len(),
            visoes(r@) == juntos(visoes2(v@)).take(i as int),
        decreases v.len() - i,
    {
        let t = juntar(&v[i]);
        proof {
            assert(visoes2(v@)[i as int] == visoes(v@[i as int]@));
            assert(juntos(visoes2(v@))[i as int] == t@);
            assert(visoes(r@.push(t)) =~= visoes(r@).push(t@));
            assert(juntos(visoes2(v@)).take(i + 1) =~= juntos(visoes2(v@)).take(i as int).push(t@));
        }
        r.push(t);
        i = i + 1;
    }
    assert(juntos(visoes2(v@)).take(i as int) =~= juntos(visoes2(v@)));
    r
}

/// The whole text of the first element that `seletor` matches.
fn primeiro_texto(doc: &Html, seletor: &str) -> (r: Option<String>)
    ensures
        opcao(r) == primeiro_texto_de(nos_de_texto(*doc, seletor@)),
{
    let nos = ler_nos_de_texto(doc, seletor);
    if nos.len() > 0 {
        proof {
            assert(visoes2(nos@)[0] == visoes(nos@[0]@));
        }
        Some(juntar(&nos[0]))
    } else {
        None
    }
}

/// The whole text of each paragraph of the document, in the order scraper
/// selects them.
pub fn textos_de_paragrafos(doc: &Html) -> (r: Vec<String>)
    ensures
        visoes(r@) == juntos(nos_de_texto(*doc, "p"@)),
{
    let nos = ler_nos_de_texto(doc, "p");
    juntar_cada(&nos)
}

impl Pagina {
    /// Reads from `doc` what extraction needs: its paragraphs, its level-three
    /// headings with the paragraphs of their enclosing elements, and the fixed
    /// landmarks. What the document lacks is `None`.
    pub fn ler(doc: &Html) -> (r: Pagina)
        ensures
            r@ == pagina_de(*doc),
    {
        let paragrafos = textos_de_paragrafos(doc);
        let mut cabs = ler_cabecalhos(doc, "h3", "p");
        let ghost todos = cabs@;
        let ghost n = cabs@.len();
        let mut secoes: Vec<Secao> = Vec::new();
        while cabs.len() > 0
            invariant
                todos.len() == n,
                secoes@.len() + cabs@.len() == n,
                cabs@ == todos.skip(secoes@.len() as int),
                visoes_cabecalhos(todos) == cabecalhos(*doc, "h3"@, "p"@),
                forall|j: int|
                    0 <= j < secoes@.len() ==> #[trigger] secoes@[j]@ == secao_de(
                        visao_cabecalho(todos[j]),
                    ),
            decreases cabs.len(),
        {
            let ghost k = secoes@.len() as int;
            let (nos_titulo, pars) = cabs.remove(0);
            assert(todos[k] == (nos_titulo, pars));
            let titulo = juntar(&nos_titulo);
            let paragrafos_da_secao = match pars {
                Some(ps) => Some(juntar_cada(&ps)),
                None => None,
            };
            let secao = Secao { titulo, paragrafos: paragrafos_da_secao };
            assert(secao@ == secao_de(visao_cabecalho(todos[k])));
            secoes.push(secao);
            assert(cabs@ =~= todos.skip(secoes@.len() as int));
        }
        let mut lista = ler_nos_de_texto(doc, ".lista-normas");
        let normas = if lista.len() > 0 {
            proof {
                assert(visoes2(lista@)[0] == visoes(lista@[0]@));
            }
            Some(lista.remove(0))
        } else {
            None
        };
        let mut links = ler_atributos(doc, "[href*=\"https://consultaca.com/fabricantes/\"]", "href");
        let link = if links.len() > 0 {
            proof {
                assert(opcoes(links@)[0] == opcao(links@[0]));
            }
            links.remove(0)
        } else {
            None
        };
        let r = Pagina {
            paragrafos,
            secoes,
            titulo: primeiro_texto(doc, "h1"),
            grupo: primeiro_texto(doc, ".grupo-epi-desc"),
            normas,
            quantidade: primeiro_texto(doc, ".total.info.load-blockui"),
            link,
        };
        assert(r@.secoes =~= pagina_de(*doc).secoes) by {
            assert forall|j: int| 0 <= j < r@.secoes.len() implies r@.secoes[j]
                == pagina_de(*doc).secoes[j] by {
                assert(r.secoes@[j]@ == secao_de(visao_cabecalho(todos[j])));
                assert(visoes_cabecalhos(todos)[j] == visao_cabecalho(todos[j]));
            }
        }
        r
    }
}

} // verus!
