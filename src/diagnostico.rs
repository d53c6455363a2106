//! Diagnostics: what extraction reports about each field that fell back to its
//! default.
use vstd::prelude::*;

verus! {

#[derive(Clone, Copy, Debug, PartialEq, Eq, Structural)]
pub enum Severidade {
    Aviso,
    Erro,
}

/// Why a field fell back to its default.
#[derive(Clone, Copy, Debug, PartialEq, Eq, Structural)]
pub enum Motivo {
    /// The label is absent from the paragraph index.
    ChaveAusente,
    /// The value is there but could not be read.
    ErroDeParsing,
    /// The element or section is absent from the document.
    NaoEncontrado,
    /// The element is there but holds no text.
    SemConteudo,
}

/// One diagnostic event: its severity, the certificate it concerns, why it was
/// raised, the label or landmark it is about, and a free-text detail.
#[derive(Debug)]
pub struct Diagnostico {
    pub severidade: Severidade,
    pub ca: u32,
    pub motivo: Motivo,
    pub assunto: String,
    pub detalhe: String,
}

pub struct DiagnosticoV {
    pub severidade: Severidade,
    pub ca: u32,
    pub motivo: Motivo,
    pub assunto: Seq<char>,
}

impl View for Diagnostico {
    type V = DiagnosticoV;

    open spec fn view(&self) -> DiagnosticoV {
        DiagnosticoV {
            severidade: self.severidade,
            ca: self.ca,
            motivo: self.motivo,
            assunto: self.assunto@,
        }
    }
}

pub open spec fn registros(v: Seq<Diagnostico>) -> Seq<DiagnosticoV> {
    v.map_values(|d: Diagnostico| d@)
}

pub open spec fn severidade_de(m: Motivo) -> Severidade {
    if m == Motivo::ErroDeParsing {
        Severidade::Erro
    } else {
        Severidade::Aviso
    }
}

/// The diagnostic raised for certificate `ca` about `assunto`, for `motivo`.
pub open spec fn diagnostico(ca: u32, motivo: Motivo, assunto: Seq<char>) -> DiagnosticoV {
    DiagnosticoV { severidade: severidade_de(motivo), ca, motivo, assunto }
}

pub open spec fn digito_de(d: nat) -> char {
    (d + '0' as nat) as char
}

/// The decimal digits of `n`.
pub open spec fn decimal(n: nat) -> Seq<char>
    decreases n,
{
    if n < 10 {
        seq![digito_de(n)]
    } else {
        decimal(n / 10) + seq![digito_de(n % 10)]
    }
}

/// The text of a diagnostic, as a log line shows it.
pub open spec fn texto_de(d: DiagnosticoV, detalhe: Seq<char>) -> Seq<char> {
    let ca = "CA"@ + decimal(d.ca as nat);
    match d.motivo {
        Motivo::ChaveAusente => ca + ": chave '"@ + d.assunto + "' não está presente no índice."@,
        Motivo::ErroDeParsing => ca + " "@ + d.assunto + ": erro no parsing. Veja: "@ + detalhe,
        Motivo::NaoEncontrado => ca + ": "@ + d.assunto + " não encontrado."@,
        Motivo::SemConteudo => ca + ": "@ + d.assunto + " encontrado, mas está sem conteúdo."@,
    }
}

fn digito(d: u32) -> (r: String)
    requires
        d < 10,
    ensures
        r@ == seq![digito_de(d as nat)],
{
    let c: char = if d == 0 {
        '0'
    } else if d == 1 {
        '1'
    } else if d == 2 {
        '2'
    } else if d == 3 {
        '3'
    } else if d == 4 {
        '4'
    } else if d == 5 {
        '5'
    } else if d == 6 {
        '6'
    } else if d == 7 {
        '7'
    } else if d == 8 {
        '8'
    } else {
        '9'
    };
    let s: &str = match c {
        '0' => "0",
        '1' => "1",
        '2' => "2",
        '3' => "3",
        '4' => "4",
        '5' => "5",
        '6' => "6",
        '7' => "7",
        '8' => "8",
        _ => "9",
    };
    proof {
        reveal_strlit("0");
        reveal_strlit("1");
        reveal_strlit("2");
        reveal_strlit("3");
        reveal_strlit("4");
        reveal_strlit("5");
        reveal_strlit("6");
        reveal_strlit("7");
        reveal_strlit("8");
        reveal_strlit("9");
    }
    assert(s@ =~= seq![digito_de(d as nat)]);
    String::from_str(s)
}

/// The decimal digits of `n`.
pub fn escrever_decimal(n: u32) -> (r: String)
    ensures
        r@ == decimal(n as nat),
    decreases n,
{
    if n < 10 {
        digito(n)
    } else {
        let mut s = escrever_decimal(n / 10);
        let d = digito(n % 10);
        s.append(d.as_str());
        s
    }
}

impl Diagnostico {
    pub fn novo(ca: u32, motivo: Motivo, assunto: &str, detalhe: &str) -> (r: Diagnostico)
        ensures
            r@ == diagnostico(ca, motivo, assunto@),
            r.detalhe@ == detalhe@,
    {
        let severidade = match motivo {
            Motivo::ErroDeParsing => Severidade::Erro,
            _ => Severidade::Aviso,
        };
        Diagnostico {
            severidade,
            ca,
            motivo,
            assunto: String::from_str(assunto),
            detalhe: String::from_str(detalhe),
        }
    }

    /// The text of this diagnostic, as a log line shows it.
    pub fn mensagem(&self) -> (r: String)
        ensures
            r@ == texto_de(self@, self.detalhe@),
    {
        let mut s = String::from_str("CA");
        let n = escrever_decimal(self.ca);
        s.append(n.as_str());
        match self.motivo {
            Motivo::ChaveAusente => {
                s.append(": chave '");
                s.append(self.assunto.as_str());
                s.append("' não está presente no índice.");
            },
            Motivo::ErroDeParsing => {
                s.append(" ");
                s.append(self.assunto.as_str());
                s.append(": erro no parsing. Veja: ");
                s.append(self.detalhe.as_str());
            },
            Motivo::NaoEncontrado => {
                s.append(": ");
                s.append(self.assunto.as_str());
                s.append(" não encontrado.");
            },
            Motivo::SemConteudo => {
                s.append(": ");
                s.append(self.assunto.as_str());
                s.append(" encontrado, mas está sem conteúdo.");
            },
        }
        s
    }
}

} // verus!
