//! The AST model: the closed sets of expression and statement shapes the
//! parser produces. Every node exclusively owns its children.

use vstd::prelude::*;
use crate::token::Token;

verus! {

/// The closed enumeration of binary operators. Unary, postfix and
/// compound-assignment operators instead keep the original token, so their
/// exact lexical form survives into the tree.
#[derive(Debug)]
pub enum Operador {
    Mais,
    Menos,
    Asterisco,
    Divisao,
    Comparar,
    Maior,
    Menor,
    MaiorOuIgual,
    MenorOuIgual,
    Diferente,
    Modulo,
    EComercial,
    EComercialDuplo,
    BarraVertical,
    BarraVerticalDupla,
    DeslocamentoEsq,
    DeslocamentoDir,
}

/// A value-producing syntax construct. Numeric literal tokens keep their raw
/// digit text; an integer literal is converted to its numeric value when the
/// node is built, a floating literal keeps the digit text itself.
#[derive(Debug)]
pub enum Expr {
    NumeroInt(i64),
    NumeroFloat(String),
    Binario { esquerda: Box<Expr>, operador: Operador, direita: Box<Expr> },
    Agrupamento(Box<Expr>),
    Variavel(Token),
    Atribuicao { alvo: Box<Expr>, valor: Box<Expr> },
    AtribuicaoComposta { alvo: Box<Expr>, operador: Token, valor: Box<Expr> },
    Unario { operador: Token, direita: Box<Expr> },
    Posfixa { expressao: Box<Expr>, operador: Token },
    AcessoArray { nome: Box<Expr>, indice: Box<Expr> },
    ChamadaFuncao { callee: Box<Expr>, argumentos: Vec<Expr> },
    CharLiteral(char),
    StringLiteral(String),
    ArrayDim,
}

/// One declared function parameter: its type tokens, its name token, and an
/// optional array-size expression (`ArrayDim` for a bare `[]`).
#[derive(Debug)]
pub struct Parametro {
    pub tipo: Vec<Token>,
    pub nome: Token,
    pub tamanho_array: Option<Expr>,
}

/// A top-level or block-level program construct.
#[derive(Debug)]
pub enum Stmt {
    Expressao(Expr),
    Retorno(Option<Expr>),
    DeclaracaoVariavel {
        tipo: Vec<Token>,
        nome: Token,
        tamanho_array: Option<Expr>,
        inicializador: Option<Expr>,
    },
    Inclusao { path: String, is_global: bool },
    Diretiva(String),
    DeclaracaoFuncao {
        tipo_retorno: Vec<Token>,
        nome: Token,
        parametros: Vec<Parametro>,
        corpo: Box<Stmt>,
    },
    If { condicao: Expr, bloco_then: Box<Stmt>, bloco_else: Option<Box<Stmt>> },
    Bloco { declaracoes: Vec<Stmt> },
    Using { namespace: String },
}

/// The shapes an assignment or compound assignment may write to: a variable
/// reference, an array-index access, or a unary expression (a dereference).
pub open spec fn alvo_valido(e: Expr) -> bool {
    e is Variavel || e is AcessoArray || e is Unario
}

/// Well-formedness of an expression tree: every assignment or compound
/// assignment inside it has a permitted target shape.
pub open spec fn expr_bem_formada(e: Expr) -> bool
    decreases e,
{
    match e {
        Expr::NumeroInt(_) => true,
        Expr::NumeroFloat(_) => true,
        Expr::Binario { esquerda, operador, direita } => expr_bem_formada(*esquerda)
            && expr_bem_formada(*direita),
        Expr::Agrupamento(interna) => expr_bem_formada(*interna),
        Expr::Variavel(_) => true,
        Expr::Atribuicao { alvo, valor } => alvo_valido(*alvo) && expr_bem_formada(*alvo)
            && expr_bem_formada(*valor),
        Expr::AtribuicaoComposta { alvo, operador, valor } => alvo_valido(*alvo)
            && expr_bem_formada(*alvo) && expr_bem_formada(*valor),
        Expr::Unario { operador, direita } => expr_bem_formada(*direita),
        Expr::Posfixa { expressao, operador } => expr_bem_formada(*expressao),
        Expr::AcessoArray { nome, indice } => expr_bem_formada(*nome) && expr_bem_formada(*indice),
        Expr::ChamadaFuncao { callee, argumentos } => expr_bem_formada(*callee) && (forall|i: int|
            0 <= i < argumentos@.len() ==> expr_bem_formada(#[trigger] argumentos@[i])),
        Expr::CharLiteral(_) => true,
        Expr::StringLiteral(_) => true,
        Expr::ArrayDim => true,
    }
}

/// Well-formedness of an optional expression.
pub open spec fn opt_expr_bem_formada(e: Option<Expr>) -> bool {
    match e {
        Some(interna) => expr_bem_formada(interna),
        None => true,
    }
}

/// Well-formedness of a statement tree: every expression inside it is
/// well formed.
pub open spec fn stmt_bem_formado(s: Stmt) -> bool
    decreases s,
{
    match s {
        Stmt::Expressao(e) => expr_bem_formada(e),
        Stmt::Retorno(v) => opt_expr_bem_formada(v),
        Stmt::DeclaracaoVariavel { tipo, nome, tamanho_array, inicializador } => {
            opt_expr_bem_formada(tamanho_array) && opt_expr_bem_formada(inicializador)
        },
        Stmt::Inclusao { path, is_global } => true,
        Stmt::Diretiva(_) => true,
        Stmt::DeclaracaoFuncao { tipo_retorno, nome, parametros, corpo } => {
            stmt_bem_formado(*corpo) && (forall|i: int|
                0 <= i < parametros@.len() ==> opt_expr_bem_formada(
                    (#[trigger] parametros@[i]).tamanho_array,
                ))
        },
        Stmt::If { condicao, bloco_then, bloco_else } => {
            expr_bem_formada(condicao) && stmt_bem_formado(*bloco_then) && (match bloco_else {
                Some(be) => stmt_bem_formado(*be),
                None => true,
            })
        },
        Stmt::Bloco { declaracoes } => forall|i: int|
            0 <= i < declaracoes@.len() ==> stmt_bem_formado(#[trigger] declaracoes@[i]),
        Stmt::Using { namespace } => true,
    }
}

} // verus!

