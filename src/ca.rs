//! The certificate record and its assembly from a document.
use vstd::prelude::*;
use crate::data::Data;
use crate::diagnostico::{registros, Diagnostico, DiagnosticoV};
use crate::extrator::{
    cidade_uf_campo, cores_campo, diagnosticos_campo, numeros_campo, numeros_lidos, par_lido,
    processo_campo, processo_lido, texto_campo, validade_campo, validade_lida, Extrator,
};
use crate::indice::{indice_de, IndiceParagrafos};
use crate::marcos::{
    descricao_completa_de, diagnosticos_descricao_completa, diagnosticos_link,
    diagnosticos_marco, diagnosticos_normas, diagnosticos_quantidade,
    normas_de, quantidade_de, secao, texto_marco,
};
use crate::pagina::{juntos, nos_de_texto, pagina_de, textos_de_paragrafos, Pagina, PaginaV};
use crate::texto::{analisar_inteiro, inteiro_ate, visoes};
use scraper::Html;

verus! {

/// The laboratory report behind a certificate.
#[derive(Debug)]
pub struct Laudo {
    pub descricao: String,
    pub cnpj: u64,
    pub razao_social: String,
}

/// The manufacturer of the equipment.
#[derive(Debug)]
pub struct Fabricante {
    pub razao_social: String,
    pub cnpj: u64,
    pub nome_fantasia: String,
    pub cidade: String,
    pub uf: String,
    pub qtd_cas: u16,
    pub link: String,
}

/// An approval certificate. `ca == 0` means that the document held none.
#[derive(Debug)]
pub struct CA {
    pub descricao: String,
    pub grupo: String,
    pub natureza: String,
    pub validade: Data,
    pub descricao_completa: String,
    pub situacao: String,
    pub processo: u64,
    pub aprovado_para: String,
    pub cores: Vec<String>,
    pub marcacao: String,
    pub referencias: String,
    pub normas: Vec<String>,
    pub ca: u32,
    pub laudo: Laudo,
    pub fabricante: Fabricante,
}

pub struct LaudoV {
    pub descricao: Seq<char>,
    pub cnpj: u64,
    pub razao_social: Seq<char>,
}

pub struct FabricanteV {
    pub razao_social: Seq<char>,
    pub cnpj: u64,
    pub nome_fantasia: Seq<char>,
    pub cidade: Seq<char>,
    pub uf: Seq<char>,
    pub qtd_cas: u16,
    pub link: Seq<char>,
}

pub struct CAV {
    pub descricao: Seq<char>,
    pub grupo: Seq<char>,
    pub natureza: Seq<char>,
    pub validade: Data,
    pub descricao_completa: Seq<char>,
    pub situacao: Seq<char>,
    pub processo: u64,
    pub aprovado_para: Seq<char>,
    pub cores: Seq<Seq<char>>,
    pub marcacao: Seq<char>,
    pub referencias: Seq<char>,
    pub normas: Seq<Seq<char>>,
    pub ca: u32,
    pub laudo: LaudoV,
    pub fabricante: FabricanteV,
}

impl View for Laudo {
    type V = LaudoV;

    open spec fn view(&self) -> LaudoV {
        LaudoV { descricao: self.descricao@, cnpj: self.cnpj, razao_social: self.razao_social@ }
    }
}

impl View for Fabricante {
    type V = FabricanteV;

    open spec fn view(&self) -> FabricanteV {
        FabricanteV {
            razao_social: self.razao_social@,
            cnpj: self.cnpj,
            nome_fantasia: self.nome_fantasia@,
            cidade: self.cidade@,
            uf: self.uf@,
            qtd_cas: self.qtd_cas,
            link: self.link@,
        }
    }
}

impl View for CA {
    type V = CAV;

    open spec fn view(&self) -> CAV {
        CAV {
            descricao: self.descricao@,
            grupo: self.grupo@,
            natureza: self.natureza@,
            validade: self.validade,
            descricao_completa: self.descricao_completa@,
            situacao: self.situacao@,
            processo: self.processo,
            aprovado_para: self.aprovado_para@,
            cores: visoes(self.cores@),
            marcacao: self.marcacao@,
            referencias: self.referencias@,
            normas: visoes(self.normas@),
            ca: self.ca,
            laudo: self.laudo@,
            fabricante: self.fabricante@,
        }
    }
}

/// The certificate number: the value under "n° ca" read as an unsigned 32-bit
/// number, or 0 when it is absent or cannot be read.
pub open spec fn ca_de(m: Map<Seq<char>, Seq<char>>) -> u32 {
    if m.contains_key("n° ca"@) {
        match inteiro_ate(m["n° ca"@], u32::MAX as nat) {
            Some(v) => v as u32,
            None => 0,
        }
    } else {
        0
    }
}

/// The index of the section `nome`: empty when the section is missing.
pub open spec fn indice_secao(p: PaginaV, nome: Seq<char>) -> Map<Seq<char>, Seq<char>> {
    match secao(p.secoes, nome) {
        Some(ps) => indice_de(ps),
        None => Map::empty(),
    }
}

/// The report that the index of the section "laudos" yields.
pub open spec fn laudo_de(m: Map<Seq<char>, Seq<char>>) -> LaudoV {
    LaudoV {
        descricao: texto_campo(m, "n° do laudo"@),
        cnpj: numeros_campo(m, "cnpj do laboratório"@) as u64,
        razao_social: texto_campo(m, "razão social"@),
    }
}

/// The diagnostics of reading the report, in order.
pub open spec fn diagnosticos_laudo(ca: u32, m: Map<Seq<char>, Seq<char>>) -> Seq<DiagnosticoV> {
    diagnosticos_campo(ca, m, "n° do laudo"@, false) + diagnosticos_campo(
        ca,
        m,
        "razão social"@,
        false,
    ) + diagnosticos_campo(
        ca,
        m,
        "cnpj do laboratório"@,
        numeros_lidos(m["cnpj do laboratório"@]) is None,
    )
}

/// The manufacturer that the index of the section "fabricante" and the
/// page's landmarks yield.
pub open spec fn fabricante_de(m: Map<Seq<char>, Seq<char>>, p: PaginaV) -> FabricanteV {
    FabricanteV {
        razao_social: texto_campo(m, "razão social"@),
        cnpj: numeros_campo(m, "cnpj"@) as u64,
        nome_fantasia: texto_campo(m, "nome fantasia"@),
        cidade: cidade_uf_campo(m).0,
        uf: cidade_uf_campo(m).1,
        qtd_cas: quantidade_de(p.quantidade),
        link: texto_marco(p.link),
    }
}

/// The diagnostics of reading the manufacturer, in order.
pub open spec fn diagnosticos_fabricante(ca: u32, m: Map<Seq<char>, Seq<char>>, p: PaginaV) -> Seq<
    DiagnosticoV,
> {
    diagnosticos_campo(ca, m, "cidade/uf"@, par_lido(m["cidade/uf"@]) is None)
        + diagnosticos_campo(ca, m, "razão social"@, false) + diagnosticos_campo(
        ca,
        m,
        "cnpj"@,
        numeros_lidos(m["cnpj"@]) is None,
    ) + diagnosticos_campo(ca, m, "nome fantasia"@, false) + diagnosticos_quantidade(
        ca,
        p.quantidade,
    ) + diagnosticos_link(ca, p.link)
}

/// The record that a page yields.
pub open spec fn registro(p: PaginaV) -> CAV {
    let m = indice_de(p.paragrafos);
    CAV {
        descricao: texto_marco(p.titulo),
        grupo: texto_marco(p.grupo),
        natureza: texto_campo(m, "natureza"@),
        validade: validade_campo(m),
        descricao_completa: descricao_completa_de(p.secoes),
        situacao: texto_campo(m, "situação"@),
        processo: processo_campo(m) as u64,
        aprovado_para: texto_campo(m, "aprovado para"@),
        cores: cores_campo(m),
        marcacao: texto_campo(m, "marcação"@),
        referencias: texto_campo(m, "referências"@),
        normas: normas_de(p.normas),
        ca: ca_de(m),
        laudo: laudo_de(indice_secao(p, "laudos"@)),
        fabricante: fabricante_de(indice_secao(p, "fabricante"@), p),
    }
}

/// The diagnostics that reading a page raises, in order: each field of the
/// record, of the report and of the manufacturer.
pub open spec fn diagnosticos_registro(p: PaginaV) -> Seq<DiagnosticoV> {
    let m = indice_de(p.paragrafos);
    let ca = ca_de(m);
    diagnosticos_campo(ca, m, "validade"@, validade_lida(m["validade"@]) is None)
        + diagnosticos_campo(ca, m, "n° processo"@, processo_lido(m["n° processo"@]) is None)
        + diagnosticos_marco(ca, p.titulo, "h1"@) + diagnosticos_marco(
        ca,
        p.grupo,
        ".grupo-epi-desc"@,
    ) + diagnosticos_campo(ca, m, "natureza"@, false) + diagnosticos_campo(
        ca,
        m,
        "situação"@,
        false,
    ) + diagnosticos_campo(ca, m, "aprovado para"@, false) + diagnosticos_campo(
        ca,
        m,
        "cor"@,
        false,
    ) + diagnosticos_campo(ca, m, "marcação"@, false) + diagnosticos_campo(
        ca,
        m,
        "referências"@,
        false,
    ) + diagnosticos_normas(ca, p.normas) + diagnosticos_descricao_completa(ca, p.secoes)
        + diagnosticos_laudo(ca, indice_secao(p, "laudos"@)) + diagnosticos_fabricante(
        ca,
        indice_secao(p, "fabricante"@),
        p,
    )
}

/// The error that a caller raises for a certificate the registry does not hold.
#[derive(Clone, Copy, Debug, PartialEq, Eq, Structural)]
pub enum CAError {
    NaoEncontrado(u32),
}

impl Laudo {
    /// The report, read from the index of the section "laudos".
    pub fn new(extrator: &mut Extrator, p_info: &IndiceParagrafos) -> (r: Laudo)
        requires
            p_info.bem_formado(),
        ensures
            final(extrator).ca == old(extrator).ca,
            r@ == laudo_de(p_info@),
            registros(final(extrator).diagnosticos@) == registros(old(extrator).diagnosticos@)
                + diagnosticos_laudo(old(extrator).ca, p_info@),
    {
        let ghost antes = registros(extrator.diagnosticos@);
        let descricao = extrator.descricao_laboratorio(p_info);
        let razao_social = extrator.razao_social_laboratorio(p_info);
        let cnpj = extrator.cnpj_laboratorio(p_info);
        assert(registros(extrator.diagnosticos@) =~= antes + diagnosticos_laudo(
            extrator.ca,
            p_info@,
        ));
        Laudo { descricao, cnpj, razao_social }
    }
}

impl Fabricante {
    /// The manufacturer, read from the index of the section "fabricante" and
    /// from the page's landmarks. City and state come from one reading of one
    /// value.
    pub fn new(extrator: &mut Extrator, p_info: &IndiceParagrafos, pagina: &Pagina) -> (r:
        Fabricante)
        requires
            p_info.bem_formado(),
        ensures
            final(extrator).ca == old(extrator).ca,
            r@ == fabricante_de(p_info@, pagina@),
            registros(final(extrator).diagnosticos@) == registros(old(extrator).diagnosticos@)
                + diagnosticos_fabricante(old(extrator).ca, p_info@, pagina@),
    {
        let ghost antes = registros(extrator.diagnosticos@);
        let (cidade, uf) = extrator.cidade_uf_extrator(p_info);
        let razao_social = extrator.razao_social_fabricante(p_info);
        let cnpj = extrator.cnpj_fabricante(p_info);
        let nome_fantasia = extrator.nome_fantasia_fabricante(p_info);
        let qtd_cas = extrator.qtd_cas_fabricante(pagina);
        let link = extrator.link_fabricante(pagina);
        assert(registros(extrator.diagnosticos@) =~= antes + diagnosticos_fabricante(
            extrator.ca,
            p_info@,
            pagina@,
        ));
        Fabricante { razao_social, cnpj, nome_fantasia, cidade, uf, qtd_cas, link }
    }
}

/// The certificate number under "n° ca", or 0.
fn numero_ca(m: &IndiceParagrafos) -> (r: u32)
    requires
        m.bem_formado(),
    ensures
        r == ca_de(m@),
{
    match m.get("n° ca") {
        Some(v) => match analisar_inteiro(v.as_str()) {
            Some(n) => {
                if n <= 4294967295 {
                    n as u32
                } else {
                    0
                }
            },
            None => 0,
        },
        None => 0,
    }
}

/// The index of the section `nome`, or an empty one.
fn indice_da_secao(extrator: &Extrator, pagina: &Pagina, nome: &str) -> (r: IndiceParagrafos)
    ensures
        r.bem_formado(),
        r@ == indice_secao(pagina@, nome@),
{
    match extrator.secao_com_h3(pagina, nome) {
        Some(ps) => IndiceParagrafos::de_textos(ps),
        None => IndiceParagrafos::new(),
    }
}

proof fn lemma_registros_concat(a: Seq<Diagnostico>, b: Seq<Diagnostico>)
    ensures
        registros(a + b) == registros(a) + registros(b),
{
    assert(registros(a + b) =~= registros(a) + registros(b));
}

impl CA {
    /// Builds the record of a page. Every field that cannot be read takes its
    /// default, and the diagnostics it raises are added to `diagnosticos`.
    pub fn de_pagina(pagina: &Pagina, diagnosticos: &mut Vec<Diagnostico>) -> (r: CA)
        ensures
            r@ == registro(pagina@),
            registros(final(diagnosticos)@) == registros(old(diagnosticos)@)
                + diagnosticos_registro(pagina@),
    {
        let p_info = IndiceParagrafos::de_textos(&pagina.paragrafos);
        let ca = numero_ca(&p_info);
        let mut extrator = Extrator::new(ca);
        assert(registros(extrator.diagnosticos@) =~= Seq::<DiagnosticoV>::empty());
        let p_info_fabricante = indice_da_secao(&extrator, pagina, "fabricante");
        let p_info_laudo = indice_da_secao(&extrator, pagina, "laudos");
        let validade = extrator.validade(&p_info);
        assert(registros(extrator.diagnosticos@) =~= diagnosticos_campo(
            ca,
            p_info@,
            "validade"@,
            validade_lida(p_info@["validade"@]) is None,
        ));
        let processo = extrator.processo(&p_info);
        let descricao = extrator.descricao(pagina);
        let grupo = extrator.grupo(pagina);
        let natureza = extrator.natureza(&p_info);
        let situacao = extrator.situacao(&p_info);
        let aprovado_para = extrator.aprovado_para(&p_info);
        let cores = extrator.cores(&p_info);
        let marcacao = extrator.marcacao(&p_info);
        let referencias = extrator.referencias(&p_info);
        let normas = extrator.normas(pagina);
        let descricao_completa = extrator.descricao_completa(pagina);
        let laudo = Laudo::new(&mut extrator, &p_info_laudo);
        let fabricante = Fabricante::new(&mut extrator, &p_info_fabricante, pagina);
        proof {
            lemma_registros_concat(diagnosticos@, extrator.diagnosticos@);
        }
        diagnosticos.append(&mut extrator.diagnosticos);
        CA {
            descricao,
            grupo,
            natureza,
            validade,
            descricao_completa,
            situacao,
            processo,
            aprovado_para,
            cores,
            marcacao,
            referencias,
            normas,
            ca,
            laudo,
            fabricante,
        }
    }

    /// Extracts the certificate from a parsed page of the registry. Never
    /// fails: a page without a certificate gives `ca == 0`, and each field that
    /// cannot be read takes its default, with its diagnostics added to
    /// `diagnosticos`.
    pub fn consultar(body: &Html, diagnosticos: &mut Vec<Diagnostico>) -> (r: CA)
        ensures
            r@ == registro(pagina_de(*body)),
            registros(final(diagnosticos)@) == registros(old(diagnosticos)@) + diagnosticos_registro(
                pagina_de(*body),
            ),
    {
        let pagina = Pagina::ler(body);
        CA::de_pagina(&pagina, diagnosticos)
    }

    /// The record, or `CAError::NaoEncontrado(pedido)` when it holds no
    /// certificate (`ca == 0`).
    pub fn encontrado(self, pedido: u32) -> (r: Result<CA, CAError>)
        ensures
            self.ca == 0 ==> r == Err::<CA, CAError>(CAError::NaoEncontrado(pedido)),
            self.ca != 0 ==> r == Ok::<CA, CAError>(self),
    {
        if self.ca == 0 {
            Err(CAError::NaoEncontrado(pedido))
        } else {
            Ok(self)
        }
    }
}

impl Extrator {
    /// The paragraph index of a whole document.
    pub fn paragrafos_hashmap(body: &Html) -> (r: IndiceParagrafos)
        ensures
            r.bem_formado(),
            r@ == indice_de(juntos(nos_de_texto(*body, "p"@))),
    {
        let textos = textos_de_paragrafos(body);
        IndiceParagrafos::de_textos(&textos)
    }
}

} // verus!
