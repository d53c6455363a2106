use cascraper::data::Data;
use cascraper::diagnostico::escrever_decimal;
use cascraper::extrator::{ler_cidade_uf, ler_cores, ler_processo, ler_validade};
use cascraper::texto::{analisar_inteiro, dividir, separar_no_primeiro, tirar_pontos_finais};
use cascraper::{Diagnostico, Motivo};

#[test]
fn inteiros_sem_sinal() {
    assert_eq!(analisar_inteiro("0"), Some(0));
    assert_eq!(analisar_inteiro("+42"), Some(42));
    assert_eq!(analisar_inteiro("007"), Some(7));
    assert_eq!(analisar_inteiro("18446744073709551615"), Some(u64::MAX));
    assert_eq!(analisar_inteiro("18446744073709551616"), None);
    assert_eq!(analisar_inteiro(""), None);
    assert_eq!(analisar_inteiro("+"), None);
    assert_eq!(analisar_inteiro("-1"), None);
    assert_eq!(analisar_inteiro(" 1"), None);
    assert_eq!(analisar_inteiro("1a"), None);
}

#[test]
fn divisao_da_esquerda_para_a_direita() {
    assert_eq!(dividir("a, b, c", ", "), vec!["a", "b", "c"]);
    assert_eq!(dividir("a,b", ", "), vec!["a,b"]);
    assert_eq!(dividir(", ", ", "), vec!["", ""]);
    assert_eq!(dividir("", "/"), vec![""]);
    assert_eq!(dividir("x//y", "/"), vec!["x", "", "y"]);
}

#[test]
fn pontos_finais() {
    assert_eq!(tirar_pontos_finais("azul..."), "azul");
    assert_eq!(tirar_pontos_finais("a.b."), "a.b");
    assert_eq!(tirar_pontos_finais("..."), "");
}

#[test]
fn primeiro_separador() {
    let (a, b) = separar_no_primeiro("Hora: 10:30", ':').unwrap();
    assert_eq!(a, "Hora");
    assert_eq!(b, " 10:30");
    assert!(separar_no_primeiro("sem", ':').is_none());
}

#[test]
fn aparar_e_minusculas() {
    assert_eq!(ler_processo("\n 77\t".to_string()).unwrap(), 77);
    assert_eq!(
        ler_cores("  AMARELO OURO  ".to_string()).unwrap(),
        vec!["amarelo ouro"]
    );
}

#[test]
fn transformacoes() {
    assert_eq!(
        ler_cores("Verde, Azul.".to_string()).unwrap(),
        vec!["verde", "azul"]
    );
    assert_eq!(
        ler_cores(" Preta , CINZA..".to_string()).unwrap(),
        vec!["preta", "cinza"]
    );
    assert_eq!(
        ler_cidade_uf("ITUMBIARA/GO".to_string()).unwrap(),
        ("ITUMBIARA".to_string(), "GO".to_string())
    );
    assert!(ler_cidade_uf("ITUMBIARA".to_string()).is_err());
    assert_eq!(ler_processo(" 123 ".to_string()).unwrap(), 123);
    assert!(ler_processo("12 3".to_string()).is_err());
    assert_eq!(
        ler_validade("26/06/2029vencerá daqui 1699 dias".to_string()).unwrap(),
        Data { ano: 2029, mes: 6, dia: 26 }
    );
    assert!(ler_validade("31/02/2029".to_string()).is_err());
}

#[test]
fn data_chrono() {
    assert_eq!(
        ler_validade("08/10/2026".to_string()).unwrap(),
        Data { ano: 2026, mes: 10, dia: 8 }
    );
    assert!(ler_validade("2026-10-08".to_string()).is_err());
}

#[test]
fn decimal_e_mensagens() {
    assert_eq!(escrever_decimal(0), "0");
    assert_eq!(escrever_decimal(4294967295), "4294967295");
    let d = Diagnostico::novo(32551, Motivo::NaoEncontrado, "h1", "");
    assert_eq!(d.mensagem(), "CA32551: h1 não encontrado.");
    let d = Diagnostico::novo(7, Motivo::SemConteudo, "normas", "");
    assert_eq!(d.mensagem(), "CA7: normas encontrado, mas está sem conteúdo.");
    let d = Diagnostico::novo(7, Motivo::ChaveAusente, "cor", "");
    assert_eq!(d.mensagem(), "CA7: chave 'cor' não está presente no índice.");
}
