use analisador::Expr;
use analisador::Lexer;
use analisador::Operador;
use analisador::Parser;
use analisador::Stmt;
use analisador::Token;

fn analisar(fonte: &str) -> Vec<Stmt> {
    let mut lexer = Lexer::new(fonte.to_string());
    let tokens = lexer.tokenizar().unwrap();
    let mut parser = Parser::new(tokens);
    parser.parse().unwrap()
}

fn analisar_com_erro(fonte: &str) -> analisador::ErroParse {
    let mut lexer = Lexer::new(fonte.to_string());
    let tokens = lexer.tokenizar().unwrap();
    let mut parser = Parser::new(tokens);
    parser.parse().unwrap_err()
}

#[test]
fn precedencia_multiplicacao_sobre_soma() {
    let stmts = analisar("2 + 3 * 4;");
    assert_eq!(stmts.len(), 1);
    match &stmts[0] {
        Stmt::Expressao(Expr::Binario { esquerda, operador: Operador::Mais, direita }) => {
            assert!(matches!(&**esquerda, Expr::NumeroInt(2)));
            match &**direita {
                Expr::Binario { esquerda, operador: Operador::Asterisco, direita } => {
                    assert!(matches!(&**esquerda, Expr::NumeroInt(3)));
                    assert!(matches!(&**direita, Expr::NumeroInt(4)));
                },
                outro => panic!("lado direito inesperado: {:?}", outro),
            }
        },
        outro => panic!("estrutura inesperada: {:?}", outro),
    }
}

#[test]
fn agrupamento_vence_a_precedencia() {
    let stmts = analisar("(2 + 3) * 4;");
    match &stmts[0] {
        Stmt::Expressao(Expr::Binario { esquerda, operador: Operador::Asterisco, direita }) => {
            match &**esquerda {
                Expr::Agrupamento(interna) => match &**interna {
                    Expr::Binario { esquerda, operador: Operador::Mais, direita } => {
                        assert!(matches!(&**esquerda, Expr::NumeroInt(2)));
                        assert!(matches!(&**direita, Expr::NumeroInt(3)));
                    },
                    outro => panic!("conteudo do agrupamento inesperado: {:?}", outro),
                },
                outro => panic!("lado esquerdo inesperado: {:?}", outro),
            }
            assert!(matches!(&**direita, Expr::NumeroInt(4)));
        },
        outro => panic!("estrutura inesperada: {:?}", outro),
    }
}

#[test]
fn atribuicao_aninhada_eh_associativa_a_direita() {
    let stmts = analisar("a = b = 3;");
    match &stmts[0] {
        Stmt::Expressao(Expr::Atribuicao { alvo, valor }) => {
            assert!(matches!(&**alvo, Expr::Variavel(Token::Identificador(n)) if n == "a"));
            match &**valor {
                Expr::Atribuicao { alvo, valor } => {
                    assert!(
                        matches!(&**alvo, Expr::Variavel(Token::Identificador(n)) if n == "b")
                    );
                    assert!(matches!(&**valor, Expr::NumeroInt(3)));
                },
                outro => panic!("valor inesperado: {:?}", outro),
            }
        },
        outro => panic!("estrutura inesperada: {:?}", outro),
    }
}

#[test]
fn alvo_invalido_de_atribuicao_falha() {
    let erro = analisar_com_erro("3 = a;");
    assert_eq!(erro.linha, 1);
}

#[test]
fn alvo_invalido_de_atribuicao_composta_falha() {
    let erro = analisar_com_erro("3 += a;");
    assert_eq!(erro.linha, 1);
}

#[test]
fn declaracao_de_variavel_simples() {
    let stmts = analisar("int x;");
    match &stmts[0] {
        Stmt::DeclaracaoVariavel { tipo, nome, tamanho_array, inicializador } => {
            assert_eq!(tipo.len(), 1);
            assert!(matches!(&tipo[0], Token::Identificador(t) if t == "int"));
            assert!(matches!(nome, Token::Identificador(n) if n == "x"));
            assert!(tamanho_array.is_none());
            assert!(inicializador.is_none());
        },
        outro => panic!("estrutura inesperada: {:?}", outro),
    }
}

#[test]
fn identificador_sozinho_eh_declaracao_de_expressao() {
    let stmts = analisar("x;");
    match &stmts[0] {
        Stmt::Expressao(Expr::Variavel(Token::Identificador(n))) => assert_eq!(n, "x"),
        outro => panic!("estrutura inesperada: {:?}", outro),
    }
}

#[test]
fn declaracao_de_funcao_completa() {
    let stmts = analisar("int add(int a, int b) { return a + b; }");
    match &stmts[0] {
        Stmt::DeclaracaoFuncao { tipo_retorno, nome, parametros, corpo } => {
            assert_eq!(tipo_retorno.len(), 1);
            assert!(matches!(&tipo_retorno[0], Token::Identificador(t) if t == "int"));
            assert!(matches!(nome, Token::Identificador(n) if n == "add"));
            assert_eq!(parametros.len(), 2);
            assert!(matches!(&parametros[0].nome, Token::Identificador(n) if n == "a"));
            assert!(matches!(&parametros[1].nome, Token::Identificador(n) if n == "b"));
            assert!(parametros[0].tamanho_array.is_none());
            match &**corpo {
                Stmt::Bloco { declaracoes } => {
                    assert_eq!(declaracoes.len(), 1);
                    match &declaracoes[0] {
                        Stmt::Retorno(Some(Expr::Binario {
                            esquerda,
                            operador: Operador::Mais,
                            direita,
                        })) => {
                            assert!(matches!(
                                &**esquerda,
                                Expr::Variavel(Token::Identificador(n)) if n == "a"
                            ));
                            assert!(matches!(
                                &**direita,
                                Expr::Variavel(Token::Identificador(n)) if n == "b"
                            ));
                        },
                        outro => panic!("corpo inesperado: {:?}", outro),
                    }
                },
                outro => panic!("corpo nao eh bloco: {:?}", outro),
            }
        },
        outro => panic!("estrutura inesperada: {:?}", outro),
    }
}

#[test]
fn entrada_vazia_da_programa_vazio() {
    let stmts = analisar("");
    assert_eq!(stmts.len(), 0);
}

#[test]
fn inclusao_global_vira_statement() {
    let stmts = analisar("#include <stdio.h>");
    match &stmts[0] {
        Stmt::Inclusao { path, is_global } => {
            assert_eq!(path, "stdio.h");
            assert!(*is_global);
        },
        outro => panic!("estrutura inesperada: {:?}", outro),
    }
}

#[test]
fn inclusao_local_desliga_a_flag() {
    let stmts = analisar("#include \"meu.h\"");
    match &stmts[0] {
        Stmt::Inclusao { path, is_global } => {
            assert_eq!(path, "meu.h");
            assert!(!*is_global);
        },
        outro => panic!("estrutura inesperada: {:?}", outro),
    }
}

#[test]
fn cadeia_de_else_if() {
    let stmts = analisar("if (a) 1; else if (b) 2; else 3;");
    match &stmts[0] {
        Stmt::If { condicao, bloco_then, bloco_else } => {
            assert!(matches!(condicao, Expr::Variavel(Token::Identificador(n)) if n == "a"));
            assert!(matches!(&**bloco_then, Stmt::Expressao(Expr::NumeroInt(1))));
            match bloco_else.as_deref() {
                Some(Stmt::If { condicao, bloco_then, bloco_else }) => {
                    assert!(
                        matches!(condicao, Expr::Variavel(Token::Identificador(n)) if n == "b")
                    );
                    assert!(matches!(&**bloco_then, Stmt::Expressao(Expr::NumeroInt(2))));
                    match bloco_else.as_deref() {
                        Some(Stmt::Expressao(Expr::NumeroInt(3))) => {},
                        outro => panic!("else final inesperado: {:?}", outro),
                    }
                },
                outro => panic!("else-if inesperado: {:?}", outro),
            }
        },
        outro => panic!("estrutura inesperada: {:?}", outro),
    }
}

#[test]
fn if_sem_else() {
    let stmts = analisar("if (a) { 1; }");
    match &stmts[0] {
        Stmt::If { bloco_else, .. } => assert!(bloco_else.is_none()),
        outro => panic!("estrutura inesperada: {:?}", outro),
    }
}

#[test]
fn contagem_independe_de_quebras_de_linha_intercaladas() {
    let sem_quebras = analisar("x; y; { z; }");
    let com_quebras = analisar("\n\nx;\n\ny;\n{\nz;\n}\n\n");
    assert_eq!(sem_quebras.len(), 3);
    assert_eq!(com_quebras.len(), 3);
}

#[test]
fn quebras_de_linha_no_buffer_nao_criam_statements() {
    let tokens = vec![
        (Token::QuebraLinha, 1),
        (Token::NumeroInt("1".to_string()), 2),
        (Token::PontoVirgula, 2),
        (Token::QuebraLinha, 2),
        (Token::QuebraLinha, 3),
        (Token::NumeroInt("2".to_string()), 4),
        (Token::PontoVirgula, 4),
        (Token::QuebraLinha, 4),
        (Token::Fundo, 5),
    ];
    let mut parser = Parser::new(tokens);
    let stmts = parser.parse().unwrap();
    assert_eq!(stmts.len(), 2);

    let tokens_sem = vec![
        (Token::NumeroInt("1".to_string()), 1),
        (Token::PontoVirgula, 1),
        (Token::NumeroInt("2".to_string()), 1),
        (Token::PontoVirgula, 1),
        (Token::Fundo, 1),
    ];
    let mut parser = Parser::new(tokens_sem);
    assert_eq!(parser.parse().unwrap().len(), 2);
}

#[test]
fn buffer_so_de_quebras_da_programa_vazio() {
    let tokens = vec![
        (Token::QuebraLinha, 1),
        (Token::QuebraLinha, 2),
        (Token::QuebraLinha, 3),
        (Token::Fundo, 4),
    ];
    let mut parser = Parser::new(tokens);
    assert_eq!(parser.parse().unwrap().len(), 0);
}

#[test]
fn alvo_agrupado_eh_rejeitado() {
    let erro = analisar_com_erro("(a) = 1;");
    assert_eq!(erro.linha, 1);
}

#[test]
fn alvo_de_dereferencia_composto_eh_aceito() {
    let stmts = analisar("*p += 1;");
    match &stmts[0] {
        Stmt::Expressao(Expr::AtribuicaoComposta { alvo, operador, .. }) => {
            assert!(matches!(&**alvo, Expr::Unario { operador: Token::Asterisco, .. }));
            assert!(matches!(operador, Token::SomaIgual));
        },
        outro => panic!("estrutura inesperada: {:?}", outro),
    }
}

#[test]
fn declaracao_com_tamanho_e_inicializador() {
    let stmts = analisar("int x[10] = 5;");
    match &stmts[0] {
        Stmt::DeclaracaoVariavel { tamanho_array, inicializador, .. } => {
            assert!(matches!(tamanho_array, Some(Expr::NumeroInt(10))));
            assert!(matches!(inicializador, Some(Expr::NumeroInt(5))));
        },
        outro => panic!("estrutura inesperada: {:?}", outro),
    }
}

#[test]
fn bloco_com_duas_declaracoes() {
    let stmts = analisar("{ 1; 2; }");
    match &stmts[0] {
        Stmt::Bloco { declaracoes } => {
            assert_eq!(declaracoes.len(), 2);
            assert!(matches!(&declaracoes[0], Stmt::Expressao(Expr::NumeroInt(1))));
            assert!(matches!(&declaracoes[1], Stmt::Expressao(Expr::NumeroInt(2))));
        },
        outro => panic!("estrutura inesperada: {:?}", outro),
    }
}

#[test]
fn corpo_de_funcao_que_nao_eh_bloco_falha() {
    let erro = analisar_com_erro("int f() 1;");
    assert_eq!(erro.linha, 1);
}

#[test]
fn retorno_com_valor() {
    let stmts = analisar("return x;");
    match &stmts[0] {
        Stmt::Retorno(Some(Expr::Variavel(Token::Identificador(n)))) => assert_eq!(n, "x"),
        outro => panic!("estrutura inesperada: {:?}", outro),
    }
}

#[test]
fn erro_guarda_o_token_encontrado() {
    let erro = analisar_com_erro("(1 + 2;");
    assert!(matches!(erro.encontrado, Token::PontoVirgula));
    let erro = analisar_com_erro("{ 1;");
    assert!(matches!(erro.encontrado, Token::Fundo));
}

#[test]
fn retorno_sem_valor() {
    let stmts = analisar("return;");
    assert!(matches!(&stmts[0], Stmt::Retorno(None)));
}

#[test]
fn using_namespace_guarda_o_nome() {
    let stmts = analisar("using namespace std;");
    match &stmts[0] {
        Stmt::Using { namespace } => assert_eq!(namespace, "std"),
        outro => panic!("estrutura inesperada: {:?}", outro),
    }
}

#[test]
fn using_sem_namespace_falha() {
    let erro = analisar_com_erro("using foo;");
    assert_eq!(erro.linha, 1);
}

#[test]
fn declaracao_com_array_e_inicializador() {
    let stmts = analisar("int xs[5];\nint ys[];\nint z = 7;");
    match &stmts[0] {
        Stmt::DeclaracaoVariavel { tamanho_array, .. } => {
            assert!(matches!(tamanho_array, Some(Expr::NumeroInt(5))));
        },
        outro => panic!("estrutura inesperada: {:?}", outro),
    }
    match &stmts[1] {
        Stmt::DeclaracaoVariavel { tamanho_array, .. } => {
            assert!(matches!(tamanho_array, Some(Expr::ArrayDim)));
        },
        outro => panic!("estrutura inesperada: {:?}", outro),
    }
    match &stmts[2] {
        Stmt::DeclaracaoVariavel { inicializador, .. } => {
            assert!(matches!(inicializador, Some(Expr::NumeroInt(7))));
        },
        outro => panic!("estrutura inesperada: {:?}", outro),
    }
}

#[test]
fn tipo_ponteiro_acumula_tokens() {
    let stmts = analisar("int* p = 0;");
    match &stmts[0] {
        Stmt::DeclaracaoVariavel { tipo, nome, .. } => {
            assert_eq!(tipo.len(), 2);
            assert!(matches!(&tipo[0], Token::Identificador(t) if t == "int"));
            assert!(matches!(tipo[1], Token::Asterisco));
            assert!(matches!(nome, Token::Identificador(n) if n == "p"));
        },
        outro => panic!("estrutura inesperada: {:?}", outro),
    }
}

#[test]
fn atribuicao_por_indice_e_por_dereferencia() {
    let stmts = analisar("m[0] = 1;\n*p = 5;");
    match &stmts[0] {
        Stmt::Expressao(Expr::Atribuicao { alvo, .. }) => {
            assert!(matches!(&**alvo, Expr::AcessoArray { .. }));
        },
        outro => panic!("estrutura inesperada: {:?}", outro),
    }
    match &stmts[1] {
        Stmt::Expressao(Expr::Atribuicao { alvo, .. }) => {
            assert!(matches!(&**alvo, Expr::Unario { .. }));
        },
        outro => panic!("estrutura inesperada: {:?}", outro),
    }
}

#[test]
fn posfixa_e_prefixa() {
    let stmts = analisar("a++;\n--a;\n!x;");
    assert!(matches!(
        &stmts[0],
        Stmt::Expressao(Expr::Posfixa { operador: Token::Incremento, .. })
    ));
    assert!(matches!(
        &stmts[1],
        Stmt::Expressao(Expr::Unario { operador: Token::Decremento, .. })
    ));
    assert!(matches!(
        &stmts[2],
        Stmt::Expressao(Expr::Unario { operador: Token::Negacao, .. })
    ));
}

#[test]
fn unarios_empilham() {
    let stmts = analisar("- -x;");
    match &stmts[0] {
        Stmt::Expressao(Expr::Unario { operador: Token::Menos, direita }) => {
            assert!(matches!(&**direita, Expr::Unario { operador: Token::Menos, .. }));
        },
        outro => panic!("estrutura inesperada: {:?}", outro),
    }
}

#[test]
fn chamada_de_funcao_com_argumentos() {
    let stmts = analisar("soma(1, x + 2);");
    match &stmts[0] {
        Stmt::Expressao(Expr::ChamadaFuncao { callee, argumentos }) => {
            assert!(matches!(&**callee, Expr::Variavel(Token::Identificador(n)) if n == "soma"));
            assert_eq!(argumentos.len(), 2);
            assert!(matches!(argumentos[0], Expr::NumeroInt(1)));
            assert!(matches!(argumentos[1], Expr::Binario { .. }));
        },
        outro => panic!("estrutura inesperada: {:?}", outro),
    }
}

#[test]
fn chamada_sem_argumentos() {
    let stmts = analisar("f();");
    match &stmts[0] {
        Stmt::Expressao(Expr::ChamadaFuncao { argumentos, .. }) => {
            assert_eq!(argumentos.len(), 0);
        },
        outro => panic!("estrutura inesperada: {:?}", outro),
    }
}

#[test]
fn atribuicao_composta_guarda_o_token() {
    let stmts = analisar("a += 5;");
    match &stmts[0] {
        Stmt::Expressao(Expr::AtribuicaoComposta { operador, .. }) => {
            assert!(matches!(operador, Token::SomaIgual));
        },
        outro => panic!("estrutura inesperada: {:?}", outro),
    }
}

#[test]
fn operadores_logicos_e_bitwise_em_camadas() {
    let stmts = analisar("a && b | c & d == e << f + g * h;");
    match &stmts[0] {
        Stmt::Expressao(Expr::Binario { operador: Operador::EComercialDuplo, .. }) => {},
        outro => panic!("estrutura inesperada: {:?}", outro),
    }
}

#[test]
fn diretiva_generica_vira_statement() {
    let stmts = analisar("#define VERSAO 1.0\nint x;");
    assert_eq!(stmts.len(), 2);
    match &stmts[0] {
        Stmt::Diretiva(comando) => assert_eq!(comando, "define"),
        outro => panic!("estrutura inesperada: {:?}", outro),
    }
    assert!(matches!(&stmts[1], Stmt::DeclaracaoVariavel { .. }));
}

#[test]
fn bloco_vazio_e_aninhado() {
    let stmts = analisar("{ }\n{ { 1; } }");
    match &stmts[0] {
        Stmt::Bloco { declaracoes } => assert_eq!(declaracoes.len(), 0),
        outro => panic!("estrutura inesperada: {:?}", outro),
    }
    match &stmts[1] {
        Stmt::Bloco { declaracoes } => {
            assert_eq!(declaracoes.len(), 1);
            assert!(matches!(&declaracoes[0], Stmt::Bloco { .. }));
        },
        outro => panic!("estrutura inesperada: {:?}", outro),
    }
}

#[test]
fn erros_estruturais_sao_fatais_e_com_linha() {
    assert_eq!(analisar_com_erro("(1 + 2;").linha, 1);
    assert_eq!(analisar_com_erro("1 + 2").linha, 1);
    assert_eq!(analisar_com_erro("{ 1;").linha, 1);
    assert_eq!(analisar_com_erro("if a) 1;").linha, 1);
    assert_eq!(analisar_com_erro("x;\n+;").linha, 2);
    assert_eq!(analisar_com_erro("m[1 = 2;").linha, 1);
}

#[test]
fn literal_float_na_arvore_mantem_o_texto() {
    let stmts = analisar("20.5;");
    match &stmts[0] {
        Stmt::Expressao(Expr::NumeroFloat(texto)) => assert_eq!(texto, "20.5"),
        outro => panic!("estrutura inesperada: {:?}", outro),
    }
}

#[test]
fn char_e_texto_viram_literais() {
    let stmts = analisar("'Z';\n\"ola\";");
    assert!(matches!(&stmts[0], Stmt::Expressao(Expr::CharLiteral('Z'))));
    match &stmts[1] {
        Stmt::Expressao(Expr::StringLiteral(s)) => assert_eq!(s, "ola"),
        outro => panic!("estrutura inesperada: {:?}", outro),
    }
}

#[test]
fn inteiro_no_limite_converte_e_acima_falha() {
    let stmts = analisar("9223372036854775807;");
    assert!(matches!(&stmts[0], Stmt::Expressao(Expr::NumeroInt(9223372036854775807))));
    let erro = analisar_com_erro("9223372036854775808;");
    assert_eq!(erro.linha, 1);
}

#[test]
fn programa_completo_do_driver() {
    let fonte = r#"
#include <stdio.h>
#define VERSAO 1.0

int calcular(int* p_valor, float dados[], int indices[10]) {
    int a = 10;
    a += 5;
    a++;
    if (a > 10 && b < 30) {
        return 1;
    } else if (a == 10 || !c) {
        return 2;
    } else {
        int x = (5 & 3) | 8;
    }
    return 0;
}

int main() {
    10;
    int y = 10 + 2 * 3;
    return 0;
}
"#;
    let stmts = analisar(fonte);
    assert_eq!(stmts.len(), 4);
    assert!(matches!(&stmts[0], Stmt::Inclusao { .. }));
    assert!(matches!(&stmts[1], Stmt::Diretiva(_)));
    assert!(matches!(&stmts[2], Stmt::DeclaracaoFuncao { .. }));
    assert!(matches!(&stmts[3], Stmt::DeclaracaoFuncao { .. }));
}
