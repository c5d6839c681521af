use analisador::Expr;
use analisador::Lexer;
use analisador::Operador;
use analisador::Parser;
use analisador::Stmt;
use analisador::Token;

fn lexar(fonte: &str) -> Vec<(Token, usize)> {
    let mut lexer = Lexer::new(fonte.to_string());
    lexer.tokenizar().unwrap()
}

#[test]
fn avancar_e_espiadinha_do_lexer() {
    let lexer = Lexer::new("ab".to_string());
    assert_eq!(lexer.espiadinha(), 'b');
    let mut lexer = Lexer::new("ab".to_string());
    lexer.avancar();
    assert_eq!(lexer.espiadinha(), '\0');
}

#[test]
fn ler_identificador_para_no_primeiro_simbolo() {
    let mut lexer = Lexer::new("abc1_x+resto".to_string());
    assert_eq!(lexer.ler_identificador(), "abc1_x");
}

#[test]
fn ler_numero_distingue_int_de_float() {
    let mut lexer = Lexer::new("123;".to_string());
    assert!(matches!(lexer.ler_numero(), Token::NumeroInt(s) if s == "123"));
    let mut lexer = Lexer::new("1.25;".to_string());
    assert!(matches!(lexer.ler_numero(), Token::NumeroFloat(s) if s == "1.25"));
}

#[test]
fn ler_texto_decodifica_e_para_na_aspas() {
    let mut lexer = Lexer::new("\"oi\\tla\" resto".to_string());
    assert_eq!(lexer.ler_texto(), "oi\tla");
}

#[test]
fn ler_char_exige_fecho() {
    let mut lexer = Lexer::new("'x'".to_string());
    assert_eq!(lexer.ler_char().unwrap(), 'x');
    let mut lexer = Lexer::new("'xy'".to_string());
    assert!(lexer.ler_char().is_err());
}

#[test]
fn ler_path_delimitado_corta_no_delimitador() {
    let mut lexer = Lexer::new("<stdio.h> resto".to_string());
    assert_eq!(lexer.ler_path_delimitado('>'), "stdio.h");
}

#[test]
fn ler_diretiva_aceita_espacos_depois_da_cerquilha() {
    let mut lexer = Lexer::new("#   include   <a.h>".to_string());
    assert!(matches!(lexer.ler_diretiva_pre_processador(), Token::InclusaoGlobal(p) if p == "a.h"));
    let mut lexer = Lexer::new("#pragma once extra".to_string());
    assert!(matches!(lexer.ler_diretiva_pre_processador(), Token::Diretiva(c) if c == "pragma"));
}

#[test]
fn diretiva_no_fim_da_entrada() {
    let tokens = lexar("#define FIM");
    assert!(matches!(&tokens[0].0, Token::Diretiva(c) if c == "define"));
    assert!(matches!(tokens[1].0, Token::Fundo));
}

#[test]
fn parse_termo_agrupa_a_esquerda() {
    let mut parser = Parser::new(lexar("2 * 3 / 4;"));
    match parser.parse_termo().unwrap() {
        Expr::Binario { esquerda, operador: Operador::Divisao, direita } => {
            assert!(matches!(*direita, Expr::NumeroInt(4)));
            assert!(matches!(
                *esquerda,
                Expr::Binario { operador: Operador::Asterisco, .. }
            ));
        },
        outro => panic!("estrutura inesperada: {:?}", outro),
    }
}

#[test]
fn parse_shift_entre_aditivo_e_comparacao() {
    let mut parser = Parser::new(lexar("1 + 2 << 3;"));
    match parser.parse_shift().unwrap() {
        Expr::Binario { esquerda, operador: Operador::DeslocamentoEsq, .. } => {
            assert!(matches!(*esquerda, Expr::Binario { operador: Operador::Mais, .. }));
        },
        outro => panic!("estrutura inesperada: {:?}", outro),
    }
}

#[test]
fn bitwise_and_opera_sobre_comparacoes() {
    let mut parser = Parser::new(lexar("a & b == c;"));
    match parser.parse_bitwise_and().unwrap() {
        Expr::Binario { operador: Operador::EComercial, direita, .. } => {
            assert!(matches!(*direita, Expr::Binario { operador: Operador::Comparar, .. }));
        },
        outro => panic!("estrutura inesperada: {:?}", outro),
    }
}

#[test]
fn logical_or_fica_acima_do_logical_and() {
    let mut parser = Parser::new(lexar("a || b && c;"));
    match parser.parse_logical_or().unwrap() {
        Expr::Binario { operador: Operador::BarraVerticalDupla, direita, .. } => {
            assert!(matches!(
                *direita,
                Expr::Binario { operador: Operador::EComercialDuplo, .. }
            ));
        },
        outro => panic!("estrutura inesperada: {:?}", outro),
    }
}

#[test]
fn parse_primario_converte_inteiro() {
    let mut parser = Parser::new(lexar("41;"));
    assert!(matches!(parser.parse_primario().unwrap(), Expr::NumeroInt(41)));
}

#[test]
fn parse_primario_rejeita_token_inesperado() {
    let mut parser = Parser::new(lexar(";"));
    assert!(parser.parse_primario().is_err());
}

#[test]
fn parse_fator_aplica_posfixos_em_cadeia() {
    let mut parser = Parser::new(lexar("m[1][2];"));
    match parser.parse_fator().unwrap() {
        Expr::AcessoArray { nome, indice } => {
            assert!(matches!(*indice, Expr::NumeroInt(2)));
            assert!(matches!(*nome, Expr::AcessoArray { .. }));
        },
        outro => panic!("estrutura inesperada: {:?}", outro),
    }
}

#[test]
fn parse_diretiva_inclusao_consome_um_token() {
    let mut parser = Parser::new(vec![
        (Token::InclusaoGlobal("x.h".to_string()), 1),
        (Token::Fundo, 1),
    ]);
    match parser.parse_diretiva_inclusao().unwrap() {
        Stmt::Inclusao { path, is_global } => {
            assert_eq!(path, "x.h");
            assert!(is_global);
        },
        outro => panic!("estrutura inesperada: {:?}", outro),
    }
}

#[test]
fn parse_diretiva_outra_guarda_so_o_comando() {
    let mut parser = Parser::new(vec![
        (Token::Diretiva("pragma".to_string()), 1),
        (Token::Fundo, 1),
    ]);
    match parser.parse_diretiva_outra().unwrap() {
        Stmt::Diretiva(comando) => assert_eq!(comando, "pragma"),
        outro => panic!("estrutura inesperada: {:?}", outro),
    }
}

#[test]
fn parse_bloco_pula_quebras_de_linha() {
    let mut parser = Parser::new(vec![
        (Token::AbreChave, 1),
        (Token::QuebraLinha, 1),
        (Token::NumeroInt("1".to_string()), 2),
        (Token::PontoVirgula, 2),
        (Token::QuebraLinha, 2),
        (Token::FechaChave, 3),
        (Token::Fundo, 3),
    ]);
    match parser.parse_bloco().unwrap() {
        Stmt::Bloco { declaracoes } => assert_eq!(declaracoes.len(), 1),
        outro => panic!("estrutura inesperada: {:?}", outro),
    }
}

#[test]
fn funcao_com_quebras_entre_parametros_e_corpo() {
    let mut lexer = Lexer::new("int f()\n\n{ return 1; }".to_string());
    let mut parser = Parser::new(lexer.tokenizar().unwrap());
    match parser.parse_declaracao_funcao().unwrap() {
        Stmt::DeclaracaoFuncao { parametros, corpo, .. } => {
            assert_eq!(parametros.len(), 0);
            assert!(matches!(*corpo, Stmt::Bloco { .. }));
        },
        outro => panic!("estrutura inesperada: {:?}", outro),
    }
}

#[test]
fn funcao_com_parametro_de_array() {
    let mut lexer = Lexer::new("int f(float dados[], int indices[10]) { }".to_string());
    let mut parser = Parser::new(lexer.tokenizar().unwrap());
    match parser.parse_declaracao_funcao().unwrap() {
        Stmt::DeclaracaoFuncao { parametros, .. } => {
            assert_eq!(parametros.len(), 2);
            assert!(matches!(parametros[0].tamanho_array, Some(Expr::ArrayDim)));
            assert!(matches!(parametros[1].tamanho_array, Some(Expr::NumeroInt(10))));
        },
        outro => panic!("estrutura inesperada: {:?}", outro),
    }
}

#[test]
fn chamada_aninhada_como_argumento() {
    let mut parser = Parser::new(lexar("f(g(1));"));
    match parser.parse_atribuicao().unwrap() {
        Expr::ChamadaFuncao { argumentos, .. } => {
            assert_eq!(argumentos.len(), 1);
            assert!(matches!(&argumentos[0], Expr::ChamadaFuncao { .. }));
        },
        outro => panic!("estrutura inesperada: {:?}", outro),
    }
}

#[test]
fn endereco_e_dereferencia_como_unarios() {
    let mut parser = Parser::new(lexar("&a;"));
    assert!(matches!(
        parser.parse_atribuicao().unwrap(),
        Expr::Unario { operador: Token::EComercial, .. }
    ));
    let mut parser = Parser::new(lexar("*p;"));
    assert!(matches!(
        parser.parse_atribuicao().unwrap(),
        Expr::Unario { operador: Token::Asterisco, .. }
    ));
}

#[test]
fn avancar_do_parser_fica_no_fundo() {
    let mut parser = Parser::new(vec![(Token::PontoVirgula, 1), (Token::Fundo, 1)]);
    parser.avancar();
    parser.avancar();
    parser.avancar();
    let resultado = parser.parse().unwrap();
    assert_eq!(resultado.len(), 0);
}
