use analisador::Lexer;
use analisador::Token;

fn lexar(fonte: &str) -> Vec<(Token, usize)> {
    let mut lexer = Lexer::new(fonte.to_string());
    lexer.tokenizar().unwrap()
}

fn so_tokens(fonte: &str) -> Vec<Token> {
    lexar(fonte).into_iter().map(|par| par.0).collect()
}

#[test]
fn expressao_aritmetica_basica() {
    let tokens = so_tokens("2 + 3 * 4;");
    assert!(matches!(&tokens[0], Token::NumeroInt(s) if s == "2"));
    assert!(matches!(tokens[1], Token::Mais));
    assert!(matches!(&tokens[2], Token::NumeroInt(s) if s == "3"));
    assert!(matches!(tokens[3], Token::Asterisco));
    assert!(matches!(&tokens[4], Token::NumeroInt(s) if s == "4"));
    assert!(matches!(tokens[5], Token::PontoVirgula));
    assert!(matches!(tokens[6], Token::Fundo));
    assert_eq!(tokens.len(), 7);
}

#[test]
fn literal_float_mantem_texto() {
    let tokens = so_tokens("20.5");
    assert!(matches!(&tokens[0], Token::NumeroFloat(s) if s == "20.5"));
    assert!(matches!(tokens[1], Token::Fundo));
}

#[test]
fn numero_sem_ponto_eh_inteiro() {
    let tokens = so_tokens("207");
    assert!(matches!(&tokens[0], Token::NumeroInt(s) if s == "207"));
}

#[test]
fn identificador_com_sublinhado_e_digitos() {
    let tokens = so_tokens("_meu_nome1 x2");
    assert!(matches!(&tokens[0], Token::Identificador(s) if s == "_meu_nome1"));
    assert!(matches!(&tokens[1], Token::Identificador(s) if s == "x2"));
}

#[test]
fn texto_decodifica_escapes() {
    let tokens = so_tokens("\"a\\nb\\t\\\"c\\\\d\\q\"");
    assert!(matches!(&tokens[0], Token::Texto(s) if s == "a\nb\t\"c\\dq"));
}

#[test]
fn texto_escapes_um_a_um() {
    let tokens = so_tokens("\"x\\ny\"");
    assert!(matches!(&tokens[0], Token::Texto(s) if s == "x\ny"));
    let tokens = so_tokens("\"x\\qy\"");
    assert!(matches!(&tokens[0], Token::Texto(s) if s == "xqy"));
}

#[test]
fn texto_sem_fecho_termina_no_fim_sem_erro() {
    let tokens = so_tokens("\"abc");
    assert!(matches!(&tokens[0], Token::Texto(s) if s == "abc"));
    assert!(matches!(tokens[1], Token::Fundo));
}

#[test]
fn char_simples_e_com_escape() {
    let tokens = so_tokens("'Z'");
    assert!(matches!(tokens[0], Token::ConteudoChar('Z')));
    let tokens = so_tokens("'\\n'");
    assert!(matches!(tokens[0], Token::ConteudoChar('\n')));
    let tokens = so_tokens("'\\''");
    assert!(matches!(tokens[0], Token::ConteudoChar('\'')));
}

#[test]
fn char_longo_demais_falha_fatalmente() {
    let mut lexer = Lexer::new("'ab".to_string());
    let resultado = lexer.tokenizar();
    assert!(resultado.is_err());
    assert_eq!(resultado.unwrap_err().linha, 1);
}

#[test]
fn char_sem_fecho_em_linha_posterior_reporta_linha() {
    let mut lexer = Lexer::new("x;\ny;\n'ab".to_string());
    let resultado = lexer.tokenizar();
    assert!(resultado.is_err());
    assert_eq!(resultado.unwrap_err().linha, 3);
}

#[test]
fn comentario_de_linha_preserva_quebra() {
    let tokens = so_tokens("a // comenta tudo ;;;\nb");
    assert!(matches!(&tokens[0], Token::Identificador(s) if s == "a"));
    assert!(matches!(tokens[1], Token::QuebraLinha));
    assert!(matches!(&tokens[2], Token::Identificador(s) if s == "b"));
}

#[test]
fn comentario_de_bloco_eh_elidido() {
    let tokens = so_tokens("a /* x ; y */ b");
    assert!(matches!(&tokens[0], Token::Identificador(s) if s == "a"));
    assert!(matches!(&tokens[1], Token::Identificador(s) if s == "b"));
    assert!(matches!(tokens[2], Token::Fundo));
}

#[test]
fn comentario_de_bloco_sem_fecho_nao_eh_erro() {
    let tokens = so_tokens("a /* aberto para sempre");
    assert!(matches!(&tokens[0], Token::Identificador(s) if s == "a"));
    assert!(matches!(tokens[1], Token::Fundo));
    assert_eq!(tokens.len(), 2);
}

#[test]
fn caractere_desconhecido_vira_invalido() {
    let tokens = so_tokens("a @ b");
    assert!(matches!(tokens[1], Token::Invalido));
}

#[test]
fn operadores_de_dois_caracteres() {
    let tokens = so_tokens("== != <= >= && || << >> ++ -- += -= *= /= %=");
    let esperados = [
        Token::Comparar,
        Token::Diferente,
        Token::MenorOuIgual,
        Token::MaiorOuIgual,
        Token::EComercialDuplo,
        Token::BarraVerticalDupla,
        Token::DeslocamentoEsq,
        Token::DeslocamentoDir,
        Token::Incremento,
        Token::Decremento,
        Token::SomaIgual,
        Token::SubtracaoIgual,
        Token::MultiplicacaoIgual,
        Token::DivisaoIgual,
        Token::ModuloIgual,
    ];
    for (i, esperado) in esperados.iter().enumerate() {
        assert!(
            std::mem::discriminant(&tokens[i]) == std::mem::discriminant(esperado),
            "token {} inesperado",
            i
        );
    }
}

#[test]
fn operadores_de_um_caractere() {
    let tokens = so_tokens("= + - * / % & | > < ! ; ( ) [ ] { } . ,");
    let esperados = [
        Token::Igual,
        Token::Mais,
        Token::Menos,
        Token::Asterisco,
        Token::Divisao,
        Token::Modulo,
        Token::EComercial,
        Token::BarraVertical,
        Token::Maior,
        Token::Menor,
        Token::Negacao,
        Token::PontoVirgula,
        Token::AbreParentesis,
        Token::FechaParentesis,
        Token::AbreColchete,
        Token::FechaColchete,
        Token::AbreChave,
        Token::FechaChave,
        Token::Ponto,
        Token::Virgula,
    ];
    for (i, esperado) in esperados.iter().enumerate() {
        assert!(
            std::mem::discriminant(&tokens[i]) == std::mem::discriminant(esperado),
            "token {} inesperado",
            i
        );
    }
}

#[test]
fn inclusao_global_carrega_o_path() {
    let tokens = so_tokens("#include <stdio.h>");
    assert!(matches!(&tokens[0], Token::InclusaoGlobal(p) if p == "stdio.h"));
    assert!(matches!(tokens[1], Token::Fundo));
}

#[test]
fn inclusao_local_carrega_o_path() {
    let tokens = so_tokens("#include \"meu_projeto.h\"");
    assert!(matches!(&tokens[0], Token::InclusaoLocal(p) if p == "meu_projeto.h"));
}

#[test]
fn diretiva_generica_descarta_o_resto_da_linha() {
    let tokens = so_tokens("#define VERSAO 1.0\nx");
    assert!(matches!(&tokens[0], Token::Diretiva(c) if c == "define"));
    assert!(matches!(&tokens[1], Token::Identificador(s) if s == "x"));
    assert!(matches!(tokens[2], Token::Fundo));
}

#[test]
fn inclusao_sem_path_vira_invalido() {
    let tokens = so_tokens("#include 5\nx");
    assert!(matches!(tokens[0], Token::Invalido));
    assert!(matches!(&tokens[1], Token::Identificador(s) if s == "x"));
}

#[test]
fn linhas_sao_contadas_a_partir_de_um() {
    let pares = lexar("a\nb\n\nc");
    assert!(matches!(&pares[0].0, Token::Identificador(s) if s == "a"));
    assert_eq!(pares[0].1, 1);
    assert!(matches!(pares[1].0, Token::QuebraLinha));
    assert_eq!(pares[1].1, 1);
    assert!(matches!(&pares[2].0, Token::Identificador(s) if s == "b"));
    assert_eq!(pares[2].1, 2);
    assert!(matches!(pares[3].0, Token::QuebraLinha));
    assert!(matches!(pares[4].0, Token::QuebraLinha));
    assert!(matches!(&pares[5].0, Token::Identificador(s) if s == "c"));
    assert_eq!(pares[5].1, 4);
}

#[test]
fn fundo_repete_depois_do_fim() {
    let mut lexer = Lexer::new("x".to_string());
    let (primeiro, _) = lexer.prox_token().unwrap();
    assert!(matches!(primeiro, Token::Identificador(_)));
    let (segundo, _) = lexer.prox_token().unwrap();
    assert!(matches!(segundo, Token::Fundo));
    let (terceiro, _) = lexer.prox_token().unwrap();
    assert!(matches!(terceiro, Token::Fundo));
}

#[test]
fn nul_literal_eh_caractere_invalido_nao_fundo() {
    let tokens = so_tokens("a\0b");
    assert!(matches!(&tokens[0], Token::Identificador(s) if s == "a"));
    assert!(matches!(tokens[1], Token::Invalido));
    assert!(matches!(&tokens[2], Token::Identificador(s) if s == "b"));
    assert!(matches!(tokens[3], Token::Fundo));
    assert_eq!(tokens.len(), 4);
}

#[test]
fn fonte_vazia_da_so_o_fundo() {
    let tokens = so_tokens("");
    assert_eq!(tokens.len(), 1);
    assert!(matches!(tokens[0], Token::Fundo));
}
