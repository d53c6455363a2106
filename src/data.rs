//! Calendar dates, read through chrono.
use chrono::Datelike;
use vstd::prelude::*;

verus! {

/// A calendar date.
#[derive(Clone, Copy, Debug, PartialEq, Eq, Structural)]
pub struct Data {
    pub ano: i32,
    pub mes: u32,
    pub dia: u32,
}

/// The default of a date that could not be read: 0001-01-01.
pub open spec fn data_padrao() -> Data {
    Data { ano: 1, mes: 1, dia: 1 }
}

/// The date that chrono's `NaiveDate::parse_from_str` reads from `s` with the
/// format `formato`, as (year, month, day).
pub uninterp spec fn data_lida(s: Seq<char>, formato: Seq<char>) -> Option<(int, int, int)>;

pub open spec fn data_de(t: (int, int, int)) -> Data {
    Data { ano: t.0 as i32, mes: t.1 as u32, dia: t.2 as u32 }
}

impl Data {
    pub fn padrao() -> (r: Data)
        ensures
            r == data_padrao(),
    {
        Data { ano: 1, mes: 1, dia: 1 }
    }
}

/// Relies on chrono's `NaiveDate::parse_from_str`, which reads a date from `s`
/// as `formato` describes it, and on `Datelike`, whose month lies in 1..=12 and
/// whose day lies in 1..=31.
#[verifier::external_body]
pub(crate) fn ler_data(s: &str, formato: &str) -> (r: Option<Data>)
    ensures
        r is Some <==> data_lida(s@, formato@) is Some,
        r matches Some(d) ==> data_lida(s@, formato@) == Some(
            (d.ano as int, d.mes as int, d.dia as int),
        ),
        r matches Some(d) ==> 1 <= d.mes <= 12 && 1 <= d.dia <= 31,
{
    match chrono::NaiveDate::parse_from_str(s, formato) {
        Ok(d) => Some(Data { ano: d.year(), mes: d.month(), dia: d.day() }),
        Err(_) => None,
    }
}

} // verus!
