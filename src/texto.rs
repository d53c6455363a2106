//! Text helpers: characters, splitting, trimming, case folding and
//! unsigned decimal numbers.
use vstd::prelude::*;

verus! {

/// The characters of each string of a sequence.
pub open spec fn visoes(v: Seq<String>) -> Seq<Seq<char>> {
    v.map_values(|s: String| s@)
}

pub open spec fn e_digito(c: char) -> bool {
    '0' <= c && c <= '9'
}

pub open spec fn valor_digito(c: char) -> nat {
    (c as nat - '0' as nat) as nat
}

/// The number written by a sequence of decimal digits (0 when empty).
pub open spec fn valor_decimal(s: Seq<char>) -> nat
    decreases s.len(),
{
    if s.len() == 0 {
        0
    } else {
        valor_decimal(s.drop_last()) * 10 + valor_digito(s.last())
    }
}

pub open spec fn so_digitos(s: Seq<char>) -> bool {
    forall|i: int| 0 <= i < s.len() ==> e_digito(#[trigger] s[i])
}

/// The decimal digits of `s`, in order, with every other character left out.
pub open spec fn digitos(s: Seq<char>) -> Seq<char>
    decreases s.len(),
{
    if s.len() == 0 {
        s
    } else if e_digito(s.last()) {
        digitos(s.drop_last()).push(s.last())
    } else {
        digitos(s.drop_last())
    }
}

/// An unsigned decimal number: an optional `+`, then one or more digits.
pub open spec fn inteiro_sem_sinal(s: Seq<char>) -> Option<nat> {
    let d = if s.len() > 0 && s[0] == '+' {
        s.drop_first()
    } else {
        s
    };
    if d.len() > 0 && so_digitos(d) {
        Some(valor_decimal(d))
    } else {
        None
    }
}

/// `inteiro_sem_sinal`, where the value is at most `limite`.
pub open spec fn inteiro_ate(s: Seq<char>, limite: nat) -> Option<nat> {
    match inteiro_sem_sinal(s) {
        Some(v) => if v <= limite {
            Some(v)
        } else {
            None
        },
        None => None,
    }
}

/// The pieces of `s` between the occurrences of `sep`, found from left to right.
pub open spec fn dividido(s: Seq<char>, sep: Seq<char>) -> Seq<Seq<char>>
    decreases s.len(),
{
    if sep.len() == 0 || s.len() < sep.len() {
        seq![s]
    } else if s.take(sep.len() as int) == sep {
        seq![Seq::<char>::empty()] + dividido(s.skip(sep.len() as int), sep)
    } else {
        prefixado(seq![s[0]], dividido(s.drop_first(), sep))
    }
}

/// `partes` with `p` put in front of its first piece.
pub open spec fn prefixado(p: Seq<char>, partes: Seq<Seq<char>>) -> Seq<Seq<char>> {
    partes.update(0, p + partes[0])
}

/// `s` without the periods at its end.
pub open spec fn sem_pontos_finais(s: Seq<char>) -> Seq<char>
    decreases s.len(),
{
    if s.len() > 0 && s.last() == '.' {
        sem_pontos_finais(s.drop_last())
    } else {
        s
    }
}

/// The position of the first occurrence of `c` in `s`.
pub open spec fn primeira_posicao(s: Seq<char>, c: char) -> Option<int> {
    if exists|i: int| 0 <= i < s.len() && s[i] == c {
        Some(choose|i: int| 0 <= i < s.len() && s[i] == c && forall|j: int| 0 <= j < i ==> s[j] != c)
    } else {
        None
    }
}

/// What `str::trim` leaves of a string.
pub uninterp spec fn aparado(s: Seq<char>) -> Seq<char>;

/// What `str::to_lowercase` makes of a string.
pub uninterp spec fn minusculas(s: Seq<char>) -> Seq<char>;

/// Relies on `str::trim`: the string without leading and trailing white space,
/// which depends on the characters alone.
#[verifier::external_body]
pub(crate) fn aparar(s: &str) -> (r: String)
    ensures
        r@ == aparado(s@),
{
    s.trim().to_string()
}

/// Relies on `str::to_lowercase`: the lowercase mapping of each character,
/// which depends on the characters alone.
#[verifier::external_body]
pub(crate) fn para_minusculas(s: &str) -> (r: String)
    ensures
        r@ == minusculas(s@),
{
    s.to_lowercase()
}

/// The characters of `s`.
pub fn caracteres(s: &str) -> (r: Vec<char>)
    ensures
        r@ == s@,
{
    let mut r: Vec<char> = Vec::new();
    for c in it: s.chars()
        invariant
            r@ == it.seq().take(it.index() as int),
    {
        r.push(c);
    }
    r
}

/// An owned copy of the characters `de..ate` of `s`.
pub fn trecho(s: &str, de: usize, ate: usize) -> (r: String)
    requires
        de <= ate <= s@.len(),
    ensures
        r@ == s@.subrange(de as int, ate as int),
{
    String::from_str(s.substring_char(de, ate))
}

proof fn lemma_digitos_monotono(s: Seq<char>, c: char)
    requires
        e_digito(c),
    ensures
        valor_decimal(s.push(c)) >= valor_decimal(s),
        valor_decimal(s.push(c)) == valor_decimal(s) * 10 + valor_digito(c),
{
    assert(s.push(c).drop_last() =~= s);
}

/// Reads `cs[de..]` as decimal digits. `None` when one of them is no digit,
/// or when the value exceeds `u64::MAX`.
fn valor_de_digitos(cs: &Vec<char>, de: usize) -> (r: Option<u64>)
    requires
        de <= cs@.len(),
    ensures
        r is Some <==> so_digitos(cs@.skip(de as int)) && valor_decimal(cs@.skip(de as int))
            <= u64::MAX,
        r matches Some(v) ==> v == valor_decimal(cs@.skip(de as int)),
{
    let ghost d = cs@.skip(de as int);
    let mut valor: u64 = 0;
    let mut i: usize = de;
    while i < cs.len()
        invariant
            de <= i <= cs@.len(),
            d == cs@.skip(de as int),
            so_digitos(d.take(i - de)),
            valor == valor_decimal(d.take(i - de)),
        decreases cs.len() - i,
    {
        let c = cs[i];
        proof {
            assert(d.take(i - de + 1) =~= d.take(i - de).push(c));
            if e_digito(c) {
                lemma_digitos_monotono(d.take(i - de), c);
            }
        }
        if !('0' <= c && c <= '9') {
            assert(!so_digitos(d)) by {
                assert(d[i - de] == c);
            }
            return None;
        }
        let dig: u64 = (c as u32 - '0' as u32) as u64;
        match valor.checked_mul(10) {
            Some(m) => match m.checked_add(dig) {
                Some(n) => {
                    valor = n;
                },
                None => {
                    proof { lemma_valor_cresce(d, (i - de + 1) as int); }
                    return None;
                },
            },
            None => {
                proof { lemma_valor_cresce(d, (i - de + 1) as int); }
                return None;
            },
        }
        i = i + 1;
    }
    assert(d.take(i - de) =~= d);
    Some(valor)
}


/// `dividido` is never empty.
proof fn lemma_dividido_nao_vazio(s: Seq<char>, sep: Seq<char>)
    ensures
        dividido(s, sep).len() > 0,
    decreases s.len(),
{
    if sep.len() == 0 || s.len() < sep.len() {
    } else if s.take(sep.len() as int) == sep {
        lemma_dividido_nao_vazio(s.skip(sep.len() as int), sep);
    } else {
        lemma_dividido_nao_vazio(s.drop_first(), sep);
    }
}

/// Whether `sep` occurs in `cs` at position `i`.
fn ocorre_em(cs: &Vec<char>, sep: &Vec<char>, i: usize) -> (r: bool)
    requires
        i <= cs@.len(),
    ensures
        r == (cs@.len() - i >= sep@.len() && cs@.skip(i as int).take(sep@.len() as int) == sep@),
{
    if cs.len() - i < sep.len() {
        return false;
    }
    let mut k: usize = 0;
    while k < sep.len()
        invariant
            k <= sep@.len(),
            i + sep@.len() <= cs@.len() <= usize::MAX,
            forall|j: int| 0 <= j < k ==> cs@[i + j] == sep@[j],
        decreases sep.len() - k,
    {
        if cs[i + k] != sep[k] {
            assert(cs@.skip(i as int).take(sep@.len() as int)[k as int] != sep@[k as int]);
            return false;
        }
        k = k + 1;
    }
    assert(cs@.skip(i as int).take(sep@.len() as int) =~= sep@);
    true
}

/// Splits `s` at each occurrence of `sep`, from left to right.
pub fn dividir(s: &str, sep: &str) -> (r: Vec<String>)
    requires
        sep@.len() > 0,
    ensures
        visoes(r@) == dividido(s@, sep@),
{
    let cs = caracteres(s);
    let ss = caracteres(sep);
    let mut partes: Vec<String> = Vec::new();
    let mut inicio: usize = 0;
    let mut i: usize = 0;
    proof {
        lemma_dividido_nao_vazio(s@, sep@);
        assert(s@.skip(0) =~= s@);
        assert(s@.subrange(0, 0) + dividido(s@, sep@)[0] =~= dividido(s@, sep@)[0]);
        assert(prefixado(s@.subrange(0, 0), dividido(s@, sep@)) =~= dividido(s@, sep@));
        assert(visoes(partes@) + dividido(s@, sep@) =~= dividido(s@, sep@));
    }
    while i < cs.len()
        invariant
            inicio <= i <= cs@.len(),
            cs@ == s@,
            ss@ == sep@,
            sep@.len() > 0,
            dividido(s@, sep@) == visoes(partes@) + prefixado(
                s@.subrange(inicio as int, i as int),
                dividido(s@.skip(i as int), sep@),
            ),
        decreases cs.len() - i,
    {
        let ghost t = s@.skip(i as int);
        let ghost atual = s@.subrange(inicio as int, i as int);
        if ocorre_em(&cs, &ss, i) {
            let peca = trecho(s, inicio, i);
            proof {
                let resto = dividido(t.skip(sep@.len() as int), sep@);
                lemma_dividido_nao_vazio(t.skip(sep@.len() as int), sep@);
                assert(t.skip(sep@.len() as int) =~= s@.skip(i + sep@.len()));
                assert(dividido(t, sep@) == seq![Seq::<char>::empty()] + resto);
                assert(prefixado(atual, dividido(t, sep@)) =~= seq![atual] + resto);
                assert(prefixado(Seq::<char>::empty(), resto) =~= resto) by {
                    assert(Seq::<char>::empty() + resto[0] =~= resto[0]);
                }
                assert(visoes(partes@.push(peca)) =~= visoes(partes@).push(atual));
                assert(s@.subrange(i + sep@.len(), i + sep@.len()) =~= Seq::<char>::empty());
            }
            partes.push(peca);
            i = i + ss.len();
            inicio = i;
        } else {
            proof {
                let resto = dividido(t.drop_first(), sep@);
                lemma_dividido_nao_vazio(t.drop_first(), sep@);
                assert(t.drop_first() =~= s@.skip(i + 1));
                if t.len() < sep@.len() {
                    assert(dividido(t.drop_first(), sep@) == seq![t.drop_first()]);
                    assert(seq![t[0]] + t.drop_first() =~= t);
                    assert(dividido(t, sep@) =~= prefixado(seq![t[0]], resto));
                } else {
                    assert(dividido(t, sep@) == prefixado(seq![t[0]], resto));
                }
                assert(s@.subrange(inicio as int, i + 1) =~= atual + seq![t[0]]);
                assert(atual + (seq![t[0]] + resto[0]) =~= (atual + seq![t[0]]) + resto[0]);
                assert(prefixado(atual, prefixado(seq![t[0]], resto)) =~= prefixado(
                    atual + seq![t[0]],
                    resto,
                ));
            }
            i = i + 1;
        }
    }
    let ultima = trecho(s, inicio, cs.len());
    proof {
        assert(s@.skip(i as int) =~= Seq::<char>::empty());
        assert(visoes(partes@.push(ultima)) =~= visoes(partes@).push(ultima@));
        assert(prefixado(ultima@, seq![Seq::<char>::empty()]) =~= seq![ultima@]);
    }
    partes.push(ultima);
    partes
}

/// `s` without the periods at its end.
pub fn tirar_pontos_finais(s: &str) -> (r: String)
    ensures
        r@ == sem_pontos_finais(s@),
{
    let cs = caracteres(s);
    let mut j: usize = cs.len();
    assert(s@.take(cs@.len() as int) =~= s@);
    while j > 0 && cs[j - 1] == '.'
        invariant
            j <= cs@.len(),
            cs@ == s@,
            sem_pontos_finais(s@.take(j as int)) == sem_pontos_finais(s@),
        decreases j,
    {
        assert(s@.take(j as int).drop_last() =~= s@.take(j - 1));
        j = j - 1;
    }
    assert(s@.take(cs@.len() as int) =~= s@);
    assert(s@.take(j as int) =~= s@.subrange(0, j as int));
    trecho(s, 0, j)
}

/// The parts of `s` before and after its first occurrence of `c`.
pub fn separar_no_primeiro(s: &str, c: char) -> (r: Option<(String, String)>)
    ensures
        r is None <==> primeira_posicao(s@, c) is None,
        r matches Some(p) ==> p.0@ == s@.take(primeira_posicao(s@, c)->0) && p.1@ == s@.skip(
            primeira_posicao(s@, c)->0 + 1,
        ),
{
    let cs = caracteres(s);
    let mut i: usize = 0;
    while i < cs.len()
        invariant
            i <= cs@.len(),
            cs@ == s@,
            forall|j: int| 0 <= j < i ==> s@[j] != c,
        decreases cs.len() - i,
    {
        if cs[i] == c {
            let ghost k = primeira_posicao(s@, c)->0;
            assert(primeira_posicao(s@, c) is Some);
            assert(k == i) by {
                if k < i {
                    assert(s@[k] != c);
                } else if k > i {
                    assert(s@[i as int] == c);
                }
            }
            let antes = trecho(s, 0, i);
            let depois = trecho(s, i + 1, cs.len());
            assert(s@.subrange(0, i as int) =~= s@.take(i as int));
            assert(s@.subrange(i + 1, s@.len() as int) =~= s@.skip(i + 1));
            return Some((antes, depois));
        }
        i = i + 1;
    }
    None
}

/// A prefix of digits is worth no more than the whole.
proof fn lemma_valor_cresce(d: Seq<char>, k: int)
    requires
        0 <= k <= d.len(),
    ensures
        so_digitos(d) ==> valor_decimal(d.take(k)) <= valor_decimal(d),
    decreases d.len() - k,
{
    if k < d.len() && so_digitos(d) {
        lemma_valor_cresce(d, k + 1);
        assert(d.take(k + 1) =~= d.take(k).push(d[k]));
        lemma_digitos_monotono(d.take(k), d[k]);
    }
    if k == d.len() {
        assert(d.take(k) =~= d);
    }
}

/// Reads an unsigned decimal number: an optional `+`, then one or more digits,
/// whose value is at most `u64::MAX`.
pub fn analisar_inteiro(s: &str) -> (r: Option<u64>)
    ensures
        r matches Some(v) ==> inteiro_ate(s@, u64::MAX as nat) == Some(v as nat),
        r is None ==> inteiro_ate(s@, u64::MAX as nat) is None,
{
    let cs = caracteres(s);
    let de: usize = if cs.len() > 0 && cs[0] == '+' {
        1
    } else {
        0
    };
    assert(cs@.skip(de as int) =~= (if s@.len() > 0 && s@[0] == '+' {
        s@.drop_first()
    } else {
        s@
    }));
    if de >= cs.len() {
        return None;
    }
    valor_de_digitos(&cs, de)
}

/// Keeps the decimal digits of `a` and reads them as one number.
/// Fails when `a` holds no digit, or when the number exceeds `u64::MAX`.
pub fn extrair_numeros(a: String) -> (r: Result<u64, String>)
    ensures
        r matches Ok(v) ==> digitos(a@).len() > 0 && v == valor_decimal(digitos(a@)),
        r is Err <==> digitos(a@).len() == 0 || valor_decimal(digitos(a@)) > u64::MAX,
{
    let cs = caracteres(a.as_str());
    let mut algum: bool = false;
    let mut estourou: bool = false;
    let mut valor: u64 = 0;
    let mut i: usize = 0;
    while i < cs.len()
        invariant
            i <= cs@.len(),
            cs@ == a@,
            algum == (digitos(cs@.take(i as int)).len() > 0),
            estourou ==> valor_decimal(digitos(cs@.take(i as int))) > u64::MAX,
            !estourou ==> valor == valor_decimal(digitos(cs@.take(i as int))),
        decreases cs.len() - i,
    {
        let c = cs[i];
        let ghost antes = digitos(cs@.take(i as int));
        assert(cs@.take(i + 1).drop_last() =~= cs@.take(i as int));
        if '0' <= c && c <= '9' {
            proof { lemma_digitos_monotono(antes, c); }
            algum = true;
            if !estourou {
                let dig: u64 = (c as u32 - '0' as u32) as u64;
                match valor.checked_mul(10) {
                    Some(m) => match m.checked_add(dig) {
                        Some(n) => {
                            valor = n;
                        },
                        None => {
                            estourou = true;
                        },
                    },
                    None => {
                        estourou = true;
                    },
                }
            }
        }
        i = i + 1;
    }
    assert(cs@.take(i as int) =~= a@);
    if !algum {
        Err(String::from_str("nenhum dígito"))
    } else if estourou {
        Err(String::from_str("número grande demais"))
    } else {
        Ok(valor)
    }
}

} // verus!
