use cascraper::{Extrator, IndiceParagrafos, Motivo, Severidade};
use scraper::Html;

fn indice(pares: &[(&str, &str)]) -> IndiceParagrafos {
    let mut info = IndiceParagrafos::new();
    for (chave, valor) in pares {
        info.inserir(chave.to_string(), valor.to_string());
    }
    info
}

fn mensagens(extrator: &Extrator) -> String {
    extrator
        .diagnosticos
        .iter()
        .map(|d| d.mensagem())
        .collect::<Vec<String>>()
        .join("\n")
}

#[test]
fn extrair() {
    let info = indice(&[("chave", "valor")]);
    assert_eq!(
        Extrator::new(777).extrair("chave", &info, Ok, "".to_string()),
        "valor"
    );
}

#[test]
fn extrair_sem_key_no_hashmap() {
    let info = indice(&[]);
    let mut extrator = Extrator::new(777);
    assert_eq!(
        extrator.extrair("SoliDeoGloria", &info, Ok, "".to_string()),
        ""
    );
    let logs = mensagens(&extrator);
    println!("{}", logs);
    assert!(logs.contains("CA777: chave 'SoliDeoGloria'"));
    assert_eq!(extrator.diagnosticos.len(), 1);
    assert_eq!(extrator.diagnosticos[0].severidade, Severidade::Aviso);
    assert_eq!(extrator.diagnosticos[0].motivo, Motivo::ChaveAusente);
    assert_eq!(extrator.diagnosticos[0].ca, 777);
    assert_eq!(extrator.diagnosticos[0].assunto, "SoliDeoGloria");
}

#[test]
fn extrair_parsing() {
    let info = indice(&[("chave", "valor")]);
    assert_eq!(
        Extrator::new(777).extrair("chave", &info, |a| Ok(a.to_uppercase()), "".to_string()),
        "VALOR"
    );
}

#[test]
fn paragrafos_hashmap() {
    let html = r#"
    <!DOCTYPE html>
    <meta charset="utf-8">
     <p>
         <strong>N° Processo:</strong>
         <br>
         19980274164202499
     </p>
     <p><strong>Situação:</strong><br><span style="color: rgb(255, 0, 0); font-weight: bold; --darkreader-inline-color: #ff1a1a;" data-darkreader-inline-color="">VENCIDO</span></p>
"#;

    let documento = Html::parse_document(html);
    let resultado = Extrator::paragrafos_hashmap(&documento);
    assert_eq!(resultado.len(), 2);
    assert_eq!(
        resultado.get("n° processo").map(|v| v.as_str()),
        Some("19980274164202499")
    );
    assert_eq!(resultado.get("situação").map(|v| v.as_str()), Some("VENCIDO"));
}

#[test]
fn erro_no_parsing() {
    let info = indice(&[("chave", "valor")]);
    let mut extrator = Extrator::new(777);
    let r = extrator.extrair(
        "chave",
        &info,
        |_| Err("IesusHominumSalvator".into()),
        "".to_string(),
    );
    assert_eq!(r, "");
    let content = mensagens(&extrator);
    println!("{}", content);
    assert!(content.contains("CA777 chave: erro no parsing"));
    assert!(content.contains("IesusHominumSalvator"));
    assert_eq!(extrator.diagnosticos.len(), 1);
    assert_eq!(extrator.diagnosticos[0].severidade, Severidade::Erro);
    assert_eq!(extrator.diagnosticos[0].motivo, Motivo::ErroDeParsing);
    assert_eq!(extrator.diagnosticos[0].detalhe, "IesusHominumSalvator");
}

#[test]
fn indice_segundo_rotulo_sobrescreve() {
    let documento = Html::parse_document(
        "<p>Cor: Verde</p><p>COR : Azul</p><p>sem dois pontos</p><p>Vazio:</p><p>Hora: 10:30</p>",
    );
    let resultado = Extrator::paragrafos_hashmap(&documento);
    assert_eq!(resultado.len(), 2);
    assert_eq!(resultado.get("cor").map(|v| v.as_str()), Some("Azul"));
    assert_eq!(resultado.get("hora").map(|v| v.as_str()), Some("10:30"));
    assert!(resultado.get("vazio").is_none());
}

#[test]
fn indice_valor_em_branco_fica_vazio() {
    let documento = Html::parse_document("<p>Marcação:   </p>");
    let resultado = Extrator::paragrafos_hashmap(&documento);
    assert_eq!(resultado.get("marcação").map(|v| v.as_str()), Some(""));
}

#[test]
fn cidade_uf_par_valido() {
    let info = indice(&[("cidade/uf", "ITUMBIARA/GO")]);
    let mut extrator = Extrator::new(1);
    assert_eq!(
        extrator.cidade_uf_extrator(&info),
        ("ITUMBIARA".to_string(), "GO".to_string())
    );
    assert!(extrator.diagnosticos.is_empty());
}

#[test]
fn cidade_uf_sem_par_da_um_diagnostico() {
    for valor in ["ITUMBIARA", "A/B/C", ""] {
        let info = indice(&[("cidade/uf", valor)]);
        let mut extrator = Extrator::new(1);
        assert_eq!(
            extrator.cidade_uf_extrator(&info),
            (String::new(), String::new())
        );
        assert_eq!(extrator.diagnosticos.len(), 1);
        assert_eq!(extrator.diagnosticos[0].severidade, Severidade::Erro);
        assert_eq!(extrator.diagnosticos[0].assunto, "cidade/uf");
    }
}

#[test]
fn cidade_uf_ausente_da_um_aviso() {
    let info = indice(&[]);
    let mut extrator = Extrator::new(5);
    assert_eq!(
        extrator.cidade_uf_extrator(&info),
        (String::new(), String::new())
    );
    assert_eq!(extrator.diagnosticos.len(), 1);
    assert_eq!(extrator.diagnosticos[0].motivo, Motivo::ChaveAusente);
}

#[test]
fn cores_em_ordem() {
    let info = indice(&[("cor", "Verde, Azul.")]);
    let mut extrator = Extrator::new(1);
    assert_eq!(
        extrator.cores(&info),
        vec!["verde".to_string(), "azul".to_string()]
    );
    assert!(extrator.diagnosticos.is_empty());
}

#[test]
fn validade_le_os_dez_primeiros_caracteres() {
    let info = indice(&[("validade", "26/06/2029vencerá daqui 1699 dias")]);
    let mut extrator = Extrator::new(1);
    let data = extrator.validade(&info);
    assert_eq!((data.ano, data.mes, data.dia), (2029, 6, 26));
    assert!(extrator.diagnosticos.is_empty());
}

#[test]
fn validade_ilegivel_da_data_padrao() {
    let info = indice(&[("validade", "xx/06/2029vencerá daqui 1699 dias")]);
    let mut extrator = Extrator::new(9);
    let data = extrator.validade(&info);
    assert_eq!((data.ano, data.mes, data.dia), (1, 1, 1));
    assert_eq!(extrator.diagnosticos.len(), 1);
    assert_eq!(extrator.diagnosticos[0].severidade, Severidade::Erro);
    assert_eq!(extrator.diagnosticos[0].assunto, "validade");
}

#[test]
fn validade_curta_nao_entra_em_panico() {
    let info = indice(&[("validade", "1/1/2029")]);
    let mut extrator = Extrator::new(9);
    let data = extrator.validade(&info);
    assert_eq!((data.ano, data.mes, data.dia), (1, 1, 1));
    assert_eq!(extrator.diagnosticos.len(), 1);
}

#[test]
fn processo_aparado_e_lido() {
    let info = indice(&[("n° processo", " 19980216122202352 ")]);
    let mut extrator = Extrator::new(1);
    assert_eq!(extrator.processo(&info), 19980216122202352);
    let info = indice(&[("n° processo", "19980-2")]);
    let mut extrator = Extrator::new(1);
    assert_eq!(extrator.processo(&info), 0);
    assert_eq!(extrator.diagnosticos[0].motivo, Motivo::ErroDeParsing);
}

#[test]
fn cnpj_so_digitos() {
    let info = indice(&[("cnpj", "00.177.445/0001-41"), ("cnpj do laboratório", "n/d")]);
    let mut extrator = Extrator::new(1);
    assert_eq!(extrator.cnpj_fabricante(&info), 177445000141);
    assert_eq!(extrator.cnpj_laboratorio(&info), 0);
    assert_eq!(extrator.diagnosticos.len(), 1);
    assert_eq!(extrator.diagnosticos[0].assunto, "cnpj do laboratório");
}
