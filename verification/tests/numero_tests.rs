use analisador::numero::converter_para_i64;

#[test]
fn converte_decimais_simples() {
    assert_eq!(converter_para_i64(&"0".to_string()), Some(0));
    assert_eq!(converter_para_i64(&"42".to_string()), Some(42));
    assert_eq!(converter_para_i64(&"007".to_string()), Some(7));
}

#[test]
fn aceita_sinal_explicito() {
    assert_eq!(converter_para_i64(&"+5".to_string()), Some(5));
    assert_eq!(converter_para_i64(&"-5".to_string()), Some(-5));
}

#[test]
fn limites_do_tipo() {
    assert_eq!(
        converter_para_i64(&"9223372036854775807".to_string()),
        Some(9223372036854775807),
    );
    assert_eq!(
        converter_para_i64(&"-9223372036854775808".to_string()),
        Some(-9223372036854775808),
    );
    assert_eq!(converter_para_i64(&"9223372036854775808".to_string()), None);
    assert_eq!(converter_para_i64(&"-9223372036854775809".to_string()), None);
    assert_eq!(converter_para_i64(&"99999999999999999999999".to_string()), None);
}

#[test]
fn rejeita_texto_que_nao_eh_numero() {
    assert_eq!(converter_para_i64(&"".to_string()), None);
    assert_eq!(converter_para_i64(&"-".to_string()), None);
    assert_eq!(converter_para_i64(&"+".to_string()), None);
    assert_eq!(converter_para_i64(&"12a".to_string()), None);
    assert_eq!(converter_para_i64(&"1 2".to_string()), None);
    assert_eq!(converter_para_i64(&"1.5".to_string()), None);
}
