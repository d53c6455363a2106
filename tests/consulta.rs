use cascraper::{CAError, Diagnostico, Motivo, Pagina, Secao, Severidade, CA};
use scraper::Html;

const PAGINA_VALIDA: &str = r#"<!DOCTYPE html>
<html><head><meta charset="utf-8"><title>CA 32551</title></head>
<body>
<h1>CALÇA</h1>
<p class="grupo-epi-desc">Proteção dos Membros Inferiores</p>
<div class="grupo_result_ca">
  <p class="info"><strong>N° CA:</strong> 32551</p>
  <p class="info"><strong>Validade:</strong> 08/10/2026vencerá daqui 400 dias</p>
  <p class="info"><strong>Situação:</strong> <span>VÁLIDO</span></p>
  <p class="info"><strong>N° Processo:</strong> 19980216122202352</p>
  <p class="info"><strong>Natureza:</strong> Nacional</p>
  <p class="info"><strong>Aprovado Para:</strong> PROTEÇÃO DAS PERNAS DO USUÁRIO CONTRA AGENTES TÉRMICOS PROVENIENTES DE ARCO ELÉTRICO E FOGO REPENTINO.</p>
  <p class="info"><strong>Marcação:</strong> Na etiqueta</p>
  <p class="info"><strong>Referências:</strong> F23.16</p>
</div>
<div class="grupo_result_ca">
  <h3>Descrição Completa</h3>
  <p>Calça de segurança confeccionada em uma camada de tecido Uniforte Pro FR, composto por 100% de algodão, fabricado pela empresa Companhia de Tecidos Santanense, com gramatura nominal de 7,66 oz/yd² (260 g/m²), ATPV 9,6 cal/cm².</p>
</div>
<div class="grupo_result_ca">
  <h3>Normas</h3>
  <ul class="lista-normas"><li>ASTM D 6413:2015</li><li>ASTM F 1506-10a</li><li>ASTM F 1930:2018</li><li>ASTM F1959/F1959M-14</li><li>ASTM F2621-19</li></ul>
</div>
<div class="grupo_result_ca">
  <h3>Laudos</h3>
  <p class="info"><strong>N° do Laudo:</strong> 85.858; 87.820; 87.821.</p>
  <p class="info"><strong>CNPJ do Laboratório:</strong> 63.025.530/0042-82</p>
  <p class="info"><strong>Razão Social:</strong> SEÇÃO TÉCNICA DE DESENVOLVIMENTO TECNOLÓGICO EM SAÚDE - IEE/USP</p>
</div>
<div class="grupo_result_ca">
  <h3>Fabricante</h3>
  <p class="info"><strong>Razão Social:</strong> FARP INDUSTRIA DE ROUPAS LTDA</p>
  <p class="info"><strong>CNPJ:</strong> 00.177.445/0001-41</p>
  <p class="info"><strong>Nome Fantasia:</strong> FARP UNIFORMES</p>
  <p class="info"><strong>Cidade/UF:</strong> ITUMBIARA/GO</p>
  <span class="total info load-blockui">28</span>
</div>
</body></html>"#;

fn textos(v: &[&str]) -> Vec<String> {
    v.iter().map(|s| s.to_string()).collect()
}

#[test]
fn consultar() {
    let body = Html::parse_document(PAGINA_VALIDA);
    let mut diagnosticos: Vec<Diagnostico> = Vec::new();
    let ca = CA::consultar(&body, &mut diagnosticos);
    assert_eq!(ca.descricao, "CALÇA");
    assert_eq!(ca.grupo, "Proteção dos Membros Inferiores");
    assert_eq!(ca.natureza, "Nacional");
    assert_eq!((ca.validade.ano, ca.validade.mes, ca.validade.dia), (2026, 10, 8));
    assert_eq!(ca.descricao_completa, "Calça de segurança confeccionada em uma camada de tecido Uniforte Pro FR, composto por 100% de algodão, fabricado pela empresa Companhia de Tecidos Santanense, com gramatura nominal de 7,66 oz/yd² (260 g/m²), ATPV 9,6 cal/cm².");
    assert_eq!(ca.situacao, "VÁLIDO");
    assert_eq!(ca.processo, 19980216122202352);
    assert_eq!(ca.aprovado_para, "PROTEÇÃO DAS PERNAS DO USUÁRIO CONTRA AGENTES TÉRMICOS PROVENIENTES DE ARCO ELÉTRICO E FOGO REPENTINO.");
    assert_eq!(ca.cores, Vec::<String>::new());
    assert_eq!(ca.marcacao, "Na etiqueta");
    assert_eq!(ca.referencias, "F23.16");
    assert_eq!(
        ca.normas,
        textos(&[
            "ASTM D 6413:2015",
            "ASTM F 1506-10a",
            "ASTM F 1930:2018",
            "ASTM F1959/F1959M-14",
            "ASTM F2621-19",
        ])
    );
    assert_eq!(ca.ca, 32551);
    assert_eq!(ca.laudo.descricao, "85.858; 87.820; 87.821.");
    assert_eq!(ca.laudo.cnpj, 63025530004282);
    assert_eq!(
        ca.laudo.razao_social,
        "SEÇÃO TÉCNICA DE DESENVOLVIMENTO TECNOLÓGICO EM SAÚDE - IEE/USP"
    );
    assert_eq!(ca.fabricante.razao_social, "FARP INDUSTRIA DE ROUPAS LTDA");
    assert_eq!(ca.fabricante.cnpj, 177445000141);
    assert_eq!(ca.fabricante.nome_fantasia, "FARP UNIFORMES");
    assert_eq!(ca.fabricante.cidade, "ITUMBIARA");
    assert_eq!(ca.fabricante.uf, "GO");
    assert_eq!(ca.fabricante.qtd_cas, 28);
    assert_eq!(ca.fabricante.link, "");
    // only the color and the manufacturer's link are missing from this page
    let assuntos: Vec<&str> = diagnosticos.iter().map(|d| d.assunto.as_str()).collect();
    assert_eq!(assuntos, vec!["cor", "link do fabricante"]);
}

#[test]
fn consultar_com_erro() {
    let body = Html::parse_document("");
    let mut diagnosticos: Vec<Diagnostico> = Vec::new();
    let ca = CA::consultar(&body, &mut diagnosticos);
    let content = diagnosticos
        .iter()
        .map(|d| d.mensagem())
        .collect::<Vec<String>>()
        .join("\n");
    println!("{}", content);
    assert_eq!(ca.ca, 0);
    assert_eq!(ca.descricao, "");
    assert_eq!(ca.grupo, "");
    assert_eq!((ca.validade.ano, ca.validade.mes, ca.validade.dia), (1, 1, 1));
    assert_eq!(ca.processo, 0);
    assert!(ca.cores.is_empty());
    assert!(ca.normas.is_empty());
    assert_eq!(ca.descricao_completa, "");
    assert_eq!(ca.laudo.cnpj, 0);
    assert_eq!(ca.fabricante.cidade, "");
    assert_eq!(ca.fabricante.uf, "");
    assert_eq!(ca.fabricante.qtd_cas, 0);
    assert_eq!(ca.fabricante.link, "");
    // one diagnostic per field: the certificate number itself raises none, and
    // city and state share the one reading of "cidade/uf"
    assert_eq!(
        content.matches("encontrad").count() + content.matches("presente").count(),
        21
    );
    assert_eq!(diagnosticos.len(), 21);
    assert!(diagnosticos.iter().all(|d| d.severidade == Severidade::Aviso && d.ca == 0));
}

#[test]
fn pagina_vazia_montada_a_mao() {
    let pagina = Pagina {
        paragrafos: Vec::new(),
        secoes: Vec::new(),
        titulo: None,
        grupo: None,
        normas: None,
        quantidade: None,
        link: None,
    };
    let mut diagnosticos: Vec<Diagnostico> = Vec::new();
    let ca = CA::de_pagina(&pagina, &mut diagnosticos);
    assert_eq!(ca.ca, 0);
    assert_eq!(diagnosticos.len(), 21);
}

#[test]
fn secao_exige_titulo_exato() {
    let pagina = Pagina {
        paragrafos: textos(&["N° CA: 12"]),
        secoes: vec![
            Secao {
                titulo: "Fabricantes".to_string(),
                paragrafos: Some(textos(&["Nome Fantasia: ERRADO"])),
            },
            Secao {
                titulo: "  FABRICANTE ".to_string(),
                paragrafos: Some(textos(&["Nome Fantasia: CERTO", "Cidade/UF: A/B/C"])),
            },
            Secao {
                titulo: "fabricante".to_string(),
                paragrafos: Some(textos(&["Nome Fantasia: SEGUNDO"])),
            },
        ],
        titulo: Some(String::new()),
        grupo: Some("Grupo".to_string()),
        normas: Some(Vec::new()),
        quantidade: Some("70000".to_string()),
        link: Some("https://consultaca.com/fabricantes/x".to_string()),
    };
    let mut diagnosticos: Vec<Diagnostico> = Vec::new();
    let ca = CA::de_pagina(&pagina, &mut diagnosticos);
    assert_eq!(ca.ca, 12);
    assert_eq!(ca.fabricante.nome_fantasia, "CERTO");
    assert_eq!(ca.fabricante.cidade, "");
    assert_eq!(ca.fabricante.qtd_cas, 0);
    assert_eq!(ca.fabricante.link, "https://consultaca.com/fabricantes/x");
    assert_eq!(ca.grupo, "Grupo");
    let erro_cidade = diagnosticos
        .iter()
        .filter(|d| d.assunto == "cidade/uf")
        .collect::<Vec<_>>();
    assert_eq!(erro_cidade.len(), 1);
    assert_eq!(erro_cidade[0].motivo, Motivo::ErroDeParsing);
    assert!(diagnosticos
        .iter()
        .any(|d| d.assunto == "h1" && d.motivo == Motivo::SemConteudo));
    assert!(diagnosticos
        .iter()
        .any(|d| d.assunto == "normas" && d.motivo == Motivo::SemConteudo));
    assert!(diagnosticos.iter().any(|d| d.assunto == "quantidade de CAs do fabricante"
        && d.motivo == Motivo::ErroDeParsing));
}

#[test]
fn secao_sem_elemento_pai() {
    let pagina = Pagina {
        paragrafos: Vec::new(),
        secoes: vec![
            Secao { titulo: "Laudos".to_string(), paragrafos: None },
            Secao { titulo: "Descrição Completa".to_string(), paragrafos: None },
        ],
        titulo: None,
        grupo: None,
        normas: None,
        quantidade: None,
        link: None,
    };
    let mut diagnosticos: Vec<Diagnostico> = Vec::new();
    let ca = CA::de_pagina(&pagina, &mut diagnosticos);
    assert_eq!(ca.laudo.descricao, "");
    assert_eq!(ca.descricao_completa, "");
    // a section without an enclosing element is a missing section: one
    // diagnostic per field, none for the section itself
    assert!(diagnosticos.iter().all(|d| d.assunto != "laudos"));
    let completa: Vec<&Diagnostico> = diagnosticos
        .iter()
        .filter(|d| d.assunto == "descrição completa")
        .collect();
    assert_eq!(completa.len(), 1);
    assert_eq!(completa[0].motivo, Motivo::NaoEncontrado);
    assert_eq!(
        completa[0].mensagem(),
        "CA0: descrição completa não encontrado."
    );
    assert_eq!(diagnosticos.len(), 21);
}

#[test]
fn encontrado_ou_erro() {
    let body = Html::parse_document("");
    let mut diagnosticos: Vec<Diagnostico> = Vec::new();
    let ca = CA::consultar(&body, &mut diagnosticos);
    assert_eq!(ca.encontrado(4321).err(), Some(CAError::NaoEncontrado(4321)));
    let body = Html::parse_document(PAGINA_VALIDA);
    let ca = CA::consultar(&body, &mut diagnosticos);
    assert_eq!(ca.encontrado(32551).map(|c| c.ca).ok(), Some(32551));
}
