//! Extraction of approval certificates ("CA") from the pages of a public
//! registry: a parsed HTML document becomes a typed record, and every field
//! that cannot be read falls back to its default with a diagnostic.
pub mod ca;
pub mod data;
pub mod diagnostico;
pub mod extrator;
pub mod indice;
pub mod marcos;
pub mod pagina;
pub mod texto;

pub use ca::{CAError, Fabricante, Laudo, CA};
pub use data::Data;
pub use diagnostico::{Diagnostico, Motivo, Severidade};
pub use extrator::Extrator;
pub use indice::IndiceParagrafos;
pub use pagina::{Pagina, Secao};
pub use texto::extrair_numeros;
