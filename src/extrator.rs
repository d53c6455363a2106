//! The field extractor: one lookup policy for every field read from a
//! paragraph index, and the transform of each such field.
use vstd::prelude::*;
use crate::data::{data_de, data_lida, data_padrao, ler_data, Data};
use crate::diagnostico::{diagnostico, registros, Diagnostico, DiagnosticoV, Motivo, Severidade};
use crate::indice::IndiceParagrafos;
use crate::texto::{
    aparado, aparar, dividido, dividir, digitos, extrair_numeros, inteiro_ate, minusculas,
    para_minusculas, analisar_inteiro, sem_pontos_finais, tirar_pontos_finais, trecho,
    valor_decimal, visoes,
};

verus! {

/// The diagnostics that looking up `rotulo` raises: one warning when the label
/// is absent, one error when its value could not be read (`falha`), none
/// otherwise.
pub open spec fn diagnosticos_campo(
    ca: u32,
    m: Map<Seq<char>, Seq<char>>,
    rotulo: Seq<char>,
    falha: bool,
) -> Seq<DiagnosticoV> {
    if !m.contains_key(rotulo) {
        seq![diagnostico(ca, Motivo::ChaveAusente, rotulo)]
    } else if falha {
        seq![diagnostico(ca, Motivo::ErroDeParsing, rotulo)]
    } else {
        Seq::empty()
    }
}

/// A free-text field: the value as it stands, or empty.
pub open spec fn texto_campo(m: Map<Seq<char>, Seq<char>>, rotulo: Seq<char>) -> Seq<char> {
    if m.contains_key(rotulo) {
        m[rotulo]
    } else {
        Seq::empty()
    }
}

/// An expiry date: the first ten characters read as `DD/MM/YYYY`. A value
/// shorter than ten characters holds no date.
pub open spec fn validade_lida(s: Seq<char>) -> Option<Data> {
    if s.len() < 10 {
        None
    } else {
        match data_lida(s.take(10), "%d/%m/%Y"@) {
            Some(t) => Some(data_de(t)),
            None => None,
        }
    }
}

/// A process number: the trimmed value read as an unsigned 64-bit number.
pub open spec fn processo_lido(s: Seq<char>) -> Option<nat> {
    inteiro_ate(aparado(s), u64::MAX as nat)
}

/// A list of colors: the pieces between `", "`, each trimmed, lowercased and
/// without trailing periods, in order.
pub open spec fn cores_lidas(s: Seq<char>) -> Seq<Seq<char>> {
    dividido(s, ", "@).map_values(|t: Seq<char>| sem_pontos_finais(minusculas(aparado(t))))
}

/// A tax id: the digits of the value read as one unsigned 64-bit number.
pub open spec fn numeros_lidos(s: Seq<char>) -> Option<nat> {
    if digitos(s).len() > 0 && valor_decimal(digitos(s)) <= u64::MAX {
        Some(valor_decimal(digitos(s)))
    } else {
        None
    }
}

/// A city and state: the two pieces around the one `/` of the value.
pub open spec fn par_lido(s: Seq<char>) -> Option<(Seq<char>, Seq<char>)> {
    let p = dividido(s, "/"@);
    if p.len() == 2 {
        Some((p[0], p[1]))
    } else {
        None
    }
}

/// Applies a field lookup: the value read from the label, or `padrao`.
pub open spec fn campo<T>(m: Map<Seq<char>, Seq<char>>, rotulo: Seq<char>, lido: Option<T>, padrao: T) -> T {
    if m.contains_key(rotulo) && lido is Some {
        lido->0
    } else {
        padrao
    }
}

/// The expiry date field.
pub open spec fn validade_campo(m: Map<Seq<char>, Seq<char>>) -> Data {
    campo(m, "validade"@, validade_lida(m["validade"@]), data_padrao())
}

/// The process number field.
pub open spec fn processo_campo(m: Map<Seq<char>, Seq<char>>) -> nat {
    campo(m, "n° processo"@, processo_lido(m["n° processo"@]), 0)
}

/// The colors field.
pub open spec fn cores_campo(m: Map<Seq<char>, Seq<char>>) -> Seq<Seq<char>> {
    campo(m, "cor"@, Some(cores_lidas(m["cor"@])), Seq::empty())
}

/// A tax id field.
pub open spec fn numeros_campo(m: Map<Seq<char>, Seq<char>>, rotulo: Seq<char>) -> nat {
    campo(m, rotulo, numeros_lidos(m[rotulo]), 0)
}

/// The city and state field.
pub open spec fn cidade_uf_campo(m: Map<Seq<char>, Seq<char>>) -> (Seq<char>, Seq<char>) {
    campo(m, "cidade/uf"@, par_lido(m["cidade/uf"@]), (Seq::empty(), Seq::empty()))
}


/// A label absent from the index gives the field's default, and exactly one
/// warning, which names the label and the certificate.
pub proof fn chave_ausente_da_padrao<T>(
    ca: u32,
    m: Map<Seq<char>, Seq<char>>,
    rotulo: Seq<char>,
    lido: Option<T>,
    padrao: T,
    falha: bool,
)
    requires
        !m.contains_key(rotulo),
    ensures
        campo(m, rotulo, lido, padrao) == padrao,
        texto_campo(m, rotulo) == Seq::<char>::empty(),
        diagnosticos_campo(ca, m, rotulo, falha) == seq![
            DiagnosticoV {
                severidade: Severidade::Aviso,
                ca,
                motivo: Motivo::ChaveAusente,
                assunto: rotulo,
            },
        ],
{
}

/// A city/state value that is not two pieces around one `/` gives two empty
/// strings and one diagnostic, an error.
pub proof fn par_invalido_da_vazio(ca: u32, m: Map<Seq<char>, Seq<char>>)
    requires
        m.contains_key("cidade/uf"@),
        dividido(m["cidade/uf"@], "/"@).len() != 2,
    ensures
        cidade_uf_campo(m) == (Seq::<char>::empty(), Seq::<char>::empty()),
        diagnosticos_campo(ca, m, "cidade/uf"@, par_lido(m["cidade/uf"@]) is None) == seq![
            DiagnosticoV {
                severidade: Severidade::Erro,
                ca,
                motivo: Motivo::ErroDeParsing,
                assunto: "cidade/uf"@,
            },
        ],
{
}

/// An expiry value shorter than ten characters, or whose first ten
/// characters are no `DD/MM/YYYY` date, gives 0001-01-01 and one error
/// diagnostic.
pub proof fn validade_ilegivel_da_padrao(ca: u32, m: Map<Seq<char>, Seq<char>>)
    requires
        m.contains_key("validade"@),
        m["validade"@].len() < 10 || data_lida(m["validade"@].take(10), "%d/%m/%Y"@) is None,
    ensures
        validade_campo(m) == (Data { ano: 1, mes: 1, dia: 1 }),
        diagnosticos_campo(ca, m, "validade"@, validade_lida(m["validade"@]) is None) == seq![
            DiagnosticoV {
                severidade: Severidade::Erro,
                ca,
                motivo: Motivo::ErroDeParsing,
                assunto: "validade"@,
            },
        ],
{
}

proof fn lemma_registros_push(v: Seq<Diagnostico>, d: Diagnostico)
    ensures
        registros(v.push(d)) == registros(v).push(d@),
{
    assert(registros(v.push(d)) =~= registros(v).push(d@));
}

/// Reads the fields of one certificate's page and keeps the diagnostics that
/// the fields falling back to their defaults raise.
pub struct Extrator {
    /// The certificate the diagnostics concern.
    pub ca: u32,
    pub diagnosticos: Vec<Diagnostico>,
}

impl Extrator {
    pub fn new(ca: u32) -> (r: Extrator)
        ensures
            r.ca == ca,
            r.diagnosticos@ == Seq::<Diagnostico>::empty(),
    {
        Extrator { ca, diagnosticos: Vec::new() }
    }

    /// Looks `informacao` up in `hashmap` and reads the value with
    /// `parse_callback`. An absent label gives `padrao` and a warning; a value
    /// that cannot be read gives `padrao` and an error whose detail is the
    /// callback's error text; otherwise the value
    /// read is returned and nothing is reported.
    pub fn extrair<T, F: Fn(String) -> Result<T, String>>(
        &mut self,
        informacao: &str,
        hashmap: &IndiceParagrafos,
        parse_callback: F,
        padrao: T,
    ) -> (r: T)
        requires
            hashmap.bem_formado(),
            forall|s: String| parse_callback.requires((s,)),
        ensures
            final(self).ca == old(self).ca,
            !hashmap@.contains_key(informacao@) ==> r == padrao && registros(
                final(self).diagnosticos@,
            ) == registros(old(self).diagnosticos@).push(
                diagnostico(old(self).ca, Motivo::ChaveAusente, informacao@),
            ),
            hashmap@.contains_key(informacao@) ==> exists|s: String, res: Result<T, String>|
                s@ == hashmap@[informacao@] && parse_callback.ensures((s,), res) && match res {
                    Ok(v) => r == v && registros(final(self).diagnosticos@) == registros(
                        old(self).diagnosticos@,
                    ),
                    Err(e) => r == padrao && registros(final(self).diagnosticos@) == registros(
                        old(self).diagnosticos@,
                    ).push(diagnostico(old(self).ca, Motivo::ErroDeParsing, informacao@))
                        && final(self).diagnosticos@.last().detalhe@ == e@,
                },
    {
        match hashmap.get(informacao) {
            Some(valor) => {
                let s = valor.clone();
                let res = parse_callback(s);
                match res {
                    Ok(v) => v,
                    Err(e) => {
                        let d = Diagnostico::novo(
                            self.ca,
                            Motivo::ErroDeParsing,
                            informacao,
                            e.as_str(),
                        );
                        proof {
                            lemma_registros_push(self.diagnosticos@, d);
                        }
                        self.diagnosticos.push(d);
                        padrao
                    },
                }
            },
            None => {
                let d = Diagnostico::novo(self.ca, Motivo::ChaveAusente, informacao, "");
                proof {
                    lemma_registros_push(self.diagnosticos@, d);
                }
                self.diagnosticos.push(d);
                padrao
            },
        }
    }
}


proof fn lemma_seq_vazia(s: Seq<DiagnosticoV>)
    ensures
        s + Seq::<DiagnosticoV>::empty() == s,
        forall|d: DiagnosticoV| #[trigger] s.push(d) == s + seq![d],
{
    assert(s + Seq::<DiagnosticoV>::empty() =~= s);
    assert forall|d: DiagnosticoV| #[trigger] s.push(d) == s + seq![d] by {
        assert(s.push(d) =~= s + seq![d]);
    }
}

impl Extrator {
    /// A free-text field: the value under `rotulo` as it stands, or empty.
    fn texto(&mut self, rotulo: &str, p_info: &IndiceParagrafos) -> (r: String)
        requires
            p_info.bem_formado(),
        ensures
            final(self).ca == old(self).ca,
            r@ == texto_campo(p_info@, rotulo@),
            registros(final(self).diagnosticos@) == registros(old(self).diagnosticos@)
                + diagnosticos_campo(old(self).ca, p_info@, rotulo@, false),
    {
        proof {
            lemma_seq_vazia(registros(self.diagnosticos@));
        }
        self.extrair(rotulo, p_info, ler_texto, String::new())
    }

    /// A tax id field: the digits of the value under `rotulo` as one number, or 0.
    fn numeros(&mut self, rotulo: &str, p_info: &IndiceParagrafos) -> (r: u64)
        requires
            p_info.bem_formado(),
        ensures
            final(self).ca == old(self).ca,
            r == numeros_campo(p_info@, rotulo@),
            registros(final(self).diagnosticos@) == registros(old(self).diagnosticos@)
                + diagnosticos_campo(
                old(self).ca,
                p_info@,
                rotulo@,
                numeros_lidos(p_info@[rotulo@]) is None,
            ),
    {
        proof {
            lemma_seq_vazia(registros(self.diagnosticos@));
        }
        self.extrair(rotulo, p_info, extrair_numeros, 0)
    }

    /// The expiry date, or 0001-01-01.
    pub fn validade(&mut self, p_info: &IndiceParagrafos) -> (r: Data)
        requires
            p_info.bem_formado(),
        ensures
            final(self).ca == old(self).ca,
            r == validade_campo(p_info@),
            registros(final(self).diagnosticos@) == registros(old(self).diagnosticos@)
                + diagnosticos_campo(
                old(self).ca,
                p_info@,
                "validade"@,
                validade_lida(p_info@["validade"@]) is None,
            ),
    {
        proof {
            lemma_seq_vazia(registros(self.diagnosticos@));
        }
        self.extrair("validade", p_info, ler_validade, Data::padrao())
    }

    /// The process number, or 0.
    pub fn processo(&mut self, p_info: &IndiceParagrafos) -> (r: u64)
        requires
            p_info.bem_formado(),
        ensures
            final(self).ca == old(self).ca,
            r == processo_campo(p_info@),
            registros(final(self).diagnosticos@) == registros(old(self).diagnosticos@)
                + diagnosticos_campo(
                old(self).ca,
                p_info@,
                "n° processo"@,
                processo_lido(p_info@["n° processo"@]) is None,
            ),
    {
        proof {
            lemma_seq_vazia(registros(self.diagnosticos@));
        }
        self.extrair("n° processo", p_info, ler_processo, 0)
    }

    /// The colors, or none.
    pub fn cores(&mut self, p_info: &IndiceParagrafos) -> (r: Vec<String>)
        requires
            p_info.bem_formado(),
        ensures
            final(self).ca == old(self).ca,
            visoes(r@) == cores_campo(p_info@),
            registros(final(self).diagnosticos@) == registros(old(self).diagnosticos@)
                + diagnosticos_campo(old(self).ca, p_info@, "cor"@, false),
    {
        proof {
            lemma_seq_vazia(registros(self.diagnosticos@));
        }
        let vazia: Vec<String> = Vec::new();
        assert(visoes(vazia@) =~= Seq::<Seq<char>>::empty());
        self.extrair("cor", p_info, ler_cores, vazia)
    }

    /// The city and state of the manufacturer, read once from one value, or
    /// two empty strings.
    pub fn cidade_uf_extrator(&mut self, p_info: &IndiceParagrafos) -> (r: (String, String))
        requires
            p_info.bem_formado(),
        ensures
            final(self).ca == old(self).ca,
            (r.0@, r.1@) == cidade_uf_campo(p_info@),
            registros(final(self).diagnosticos@) == registros(old(self).diagnosticos@)
                + diagnosticos_campo(
                old(self).ca,
                p_info@,
                "cidade/uf"@,
                par_lido(p_info@["cidade/uf"@]) is None,
            ),
    {
        proof {
            lemma_seq_vazia(registros(self.diagnosticos@));
        }
        self.extrair("cidade/uf", p_info, ler_cidade_uf, (String::new(), String::new()))
    }

    /// The origin of the equipment (national or imported).
    pub fn natureza(&mut self, p_info: &IndiceParagrafos) -> (r: String)
        requires
            p_info.bem_formado(),
        ensures
            final(self).ca == old(self).ca,
            r@ == texto_campo(p_info@, "natureza"@),
            registros(final(self).diagnosticos@) == registros(old(self).diagnosticos@)
                + diagnosticos_campo(old(self).ca, p_info@, "natureza"@, false),
    {
        self.texto("natureza", p_info)
    }

    /// The status of the certificate.
    pub fn situacao(&mut self, p_info: &IndiceParagrafos) -> (r: String)
        requires
            p_info.bem_formado(),
        ensures
            final(self).ca == old(self).ca,
            r@ == texto_campo(p_info@, "situação"@),
            registros(final(self).diagnosticos@) == registros(old(self).diagnosticos@)
                + diagnosticos_campo(old(self).ca, p_info@, "situação"@, false),
    {
        self.texto("situação", p_info)
    }

    /// Where the certificate number is marked on the equipment.
    pub fn marcacao(&mut self, p_info: &IndiceParagrafos) -> (r: String)
        requires
            p_info.bem_formado(),
        ensures
            final(self).ca == old(self).ca,
            r@ == texto_campo(p_info@, "marcação"@),
            registros(final(self).diagnosticos@) == registros(old(self).diagnosticos@)
                + diagnosticos_campo(old(self).ca, p_info@, "marcação"@, false),
    {
        self.texto("marcação", p_info)
    }

    /// The manufacturer's references of the equipment.
    pub fn referencias(&mut self, p_info: &IndiceParagrafos) -> (r: String)
        requires
            p_info.bem_formado(),
        ensures
            final(self).ca == old(self).ca,
            r@ == texto_campo(p_info@, "referências"@),
            registros(final(self).diagnosticos@) == registros(old(self).diagnosticos@)
                + diagnosticos_campo(old(self).ca, p_info@, "referências"@, false),
    {
        self.texto("referências", p_info)
    }

    /// What the equipment is approved for.
    pub fn aprovado_para(&mut self, p_info: &IndiceParagrafos) -> (r: String)
        requires
            p_info.bem_formado(),
        ensures
            final(self).ca == old(self).ca,
            r@ == texto_campo(p_info@, "aprovado para"@),
            registros(final(self).diagnosticos@) == registros(old(self).diagnosticos@)
                + diagnosticos_campo(old(self).ca, p_info@, "aprovado para"@, false),
    {
        self.texto("aprovado para", p_info)
    }

    /// The numbers of the laboratory reports.
    pub fn descricao_laboratorio(&mut self, p_info: &IndiceParagrafos) -> (r: String)
        requires
            p_info.bem_formado(),
        ensures
            final(self).ca == old(self).ca,
            r@ == texto_campo(p_info@, "n° do laudo"@),
            registros(final(self).diagnosticos@) == registros(old(self).diagnosticos@)
                + diagnosticos_campo(old(self).ca, p_info@, "n° do laudo"@, false),
    {
        self.texto("n° do laudo", p_info)
    }

    /// The corporate name of the laboratory.
    pub fn razao_social_laboratorio(&mut self, p_info: &IndiceParagrafos) -> (r: String)
        requires
            p_info.bem_formado(),
        ensures
            final(self).ca == old(self).ca,
            r@ == texto_campo(p_info@, "razão social"@),
            registros(final(self).diagnosticos@) == registros(old(self).diagnosticos@)
                + diagnosticos_campo(old(self).ca, p_info@, "razão social"@, false),
    {
        self.texto("razão social", p_info)
    }

    /// The corporate name of the manufacturer.
    pub fn razao_social_fabricante(&mut self, p_info: &IndiceParagrafos) -> (r: String)
        requires
            p_info.bem_formado(),
        ensures
            final(self).ca == old(self).ca,
            r@ == texto_campo(p_info@, "razão social"@),
            registros(final(self).diagnosticos@) == registros(old(self).diagnosticos@)
                + diagnosticos_campo(old(self).ca, p_info@, "razão social"@, false),
    {
        self.texto("razão social", p_info)
    }

    /// The trade name of the manufacturer.
    pub fn nome_fantasia_fabricante(&mut self, p_info: &IndiceParagrafos) -> (r: String)
        requires
            p_info.bem_formado(),
        ensures
            final(self).ca == old(self).ca,
            r@ == texto_campo(p_info@, "nome fantasia"@),
            registros(final(self).diagnosticos@) == registros(old(self).diagnosticos@)
                + diagnosticos_campo(old(self).ca, p_info@, "nome fantasia"@, false),
    {
        self.texto("nome fantasia", p_info)
    }

    /// The tax id of the laboratory, or 0.
    pub fn cnpj_laboratorio(&mut self, p_info: &IndiceParagrafos) -> (r: u64)
        requires
            p_info.bem_formado(),
        ensures
            final(self).ca == old(self).ca,
            r == numeros_campo(p_info@, "cnpj do laboratório"@),
            registros(final(self).diagnosticos@) == registros(old(self).diagnosticos@)
                + diagnosticos_campo(
                old(self).ca,
                p_info@,
                "cnpj do laboratório"@,
                numeros_lidos(p_info@["cnpj do laboratório"@]) is None,
            ),
    {
        self.numeros("cnpj do laboratório", p_info)
    }

    /// The tax id of the manufacturer, or 0.
    pub fn cnpj_fabricante(&mut self, p_info: &IndiceParagrafos) -> (r: u64)
        requires
            p_info.bem_formado(),
        ensures
            final(self).ca == old(self).ca,
            r == numeros_campo(p_info@, "cnpj"@),
            registros(final(self).diagnosticos@) == registros(old(self).diagnosticos@)
                + diagnosticos_campo(
                old(self).ca,
                p_info@,
                "cnpj"@,
                numeros_lidos(p_info@["cnpj"@]) is None,
            ),
    {
        self.numeros("cnpj", p_info)
    }
}

/// A free-text value, as it stands.
pub fn ler_texto(a: String) -> (r: Result<String, String>)
    ensures
        r matches Ok(v) && v@ == a@,
{
    Ok(a)
}

/// An expiry date: the first ten characters of the value read as `DD/MM/YYYY`.
pub fn ler_validade(a: String) -> (r: Result<Data, String>)
    ensures
        r is Ok <==> validade_lida(a@) is Some,
        r matches Ok(d) ==> validade_lida(a@) == Some(d),
{
    let n = a.as_str().unicode_len();
    if n < 10 {
        return Err(String::from_str("menos de dez caracteres"));
    }
    let prefixo = trecho(a.as_str(), 0, 10);
    assert(prefixo@ =~= a@.take(10));
    match ler_data(prefixo.as_str(), "%d/%m/%Y") {
        Some(d) => Ok(d),
        None => Err(String::from_str("não é uma data DD/MM/AAAA")),
    }
}

/// A process number: the trimmed value read as an unsigned number.
pub fn ler_processo(a: String) -> (r: Result<u64, String>)
    ensures
        r is Ok <==> processo_lido(a@) is Some,
        r matches Ok(v) ==> processo_lido(a@) == Some(v as nat),
{
    let t = aparar(a.as_str());
    match analisar_inteiro(t.as_str()) {
        Some(v) => Ok(v),
        None => Err(String::from_str("não é um número inteiro sem sinal")),
    }
}

/// A list of colors: the pieces between `", "`, each trimmed, lowercased and
/// without trailing periods. Never fails.
pub fn ler_cores(a: String) -> (r: Result<Vec<String>, String>)
    ensures
        r matches Ok(v) && visoes(v@) == cores_lidas(a@),
{
    proof {
        reveal_strlit(", ");
    }
    let partes = dividir(a.as_str(), ", ");
    let mut cores: Vec<String> = Vec::new();
    let mut i: usize = 0;
    while i < partes.len()
        invariant
            i <= partes@.len(),
            visoes(partes@) == dividido(a@, ", "@),
            visoes(cores@) == cores_lidas(a@).take(i as int),
        decreases partes.len() - i,
    {
        let aparada = aparar(partes[i].as_str());
        let minuscula = para_minusculas(aparada.as_str());
        let cor = tirar_pontos_finais(minuscula.as_str());
        proof {
            assert(partes@[i as int]@ == visoes(partes@)[i as int]);
            assert(cores_lidas(a@).len() == partes@.len());
            assert(cores_lidas(a@)[i as int] == cor@);
            assert(visoes(cores@.push(cor)) =~= visoes(cores@).push(cor@));
            assert(cores_lidas(a@).take(i + 1) =~= cores_lidas(a@).take(i as int).push(cor@));
        }
        cores.push(cor);
        i = i + 1;
    }
    assert(cores_lidas(a@).take(i as int) =~= cores_lidas(a@));
    Ok(cores)
}

/// A city and state: the two pieces around the one `/` of the value.
pub fn ler_cidade_uf(a: String) -> (r: Result<(String, String), String>)
    ensures
        r is Ok <==> par_lido(a@) is Some,
        r matches Ok(p) ==> par_lido(a@) == Some((p.0@, p.1@)),
{
    proof {
        reveal_strlit("/");
    }
    let mut partes = dividir(a.as_str(), "/");
    if partes.len() == 2 {
        let uf = partes.pop().unwrap();
        let cidade = partes.pop().unwrap();
        proof {
            assert(visoes(partes@.push(cidade).push(uf))[0] == cidade@);
        }
        Ok((cidade, uf))
    } else {
        Err(String::from_str("não é um par cidade/UF"))
    }
}

} // verus!
