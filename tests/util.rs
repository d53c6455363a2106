use cascraper::extrair_numeros;

#[test]
fn util_test_extrair_numeros() {
    assert_eq!(
        extrair_numeros("69.561.137/0001-11".to_string()).unwrap(),
        69561137000111
    );
}

#[test]
fn extrair_numeros_sem_digitos_falha() {
    assert!(extrair_numeros("sem números".to_string()).is_err());
    assert!(extrair_numeros("".to_string()).is_err());
}

#[test]
fn extrair_numeros_grande_demais_falha() {
    assert_eq!(
        extrair_numeros("18.446.744.073.709.551.615".to_string()).unwrap(),
        u64::MAX
    );
    assert!(extrair_numeros("18.446.744.073.709.551.616".to_string()).is_err());
}
