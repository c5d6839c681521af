//! The parser: consumes the fully pre-lexed, line-tagged token buffer and
//! produces the ordered sequence of top-level statements, by recursive
//! descent with an explicit operator-precedence layering for expressions and
//! lookahead-driven dispatch for statements.
//!
//! Every structural expectation violation is an immediate, line-tagged fatal
//! failure carrying what was expected and the token actually found; the first
//! violation ends the parse.

use vstd::prelude::*;
use crate::ast::alvo_valido;
use crate::ast::expr_bem_formada;
use crate::ast::opt_expr_bem_formada;
use crate::ast::stmt_bem_formado;
use crate::ast::Expr;
use crate::ast::Operador;
use crate::ast::Parametro;
use crate::ast::Stmt;
use crate::caracteres::texto_igual;
use crate::numero::converter_para_i64;
use crate::numero::i64_do_texto;
use crate::token::Token;

verus! {

/// The token a buffer position carries: the one there, or the end-of-input
/// sentinel at or past the end.
pub open spec fn token_em(ts: Seq<(Token, usize)>, i: int) -> Token {
    if 0 <= i < ts.len() {
        ts[i].0
    } else {
        Token::Fundo
    }
}


/// The expression a lone literal or variable token denotes: an integer
/// literal yields its numeric value when the digit text converts, a floating
/// literal keeps its digit text, and an identifier names a variable.
pub open spec fn expr_atomo(t: Token) -> Option<Expr> {
    match t {
        Token::NumeroInt(s) => match i64_do_texto(s@) {
            Some(v) => Some(Expr::NumeroInt(v)),
            None => None,
        },
        Token::NumeroFloat(s) => Some(Expr::NumeroFloat(s)),
        Token::ConteudoChar(c) => Some(Expr::CharLiteral(c)),
        Token::Texto(s) => Some(Expr::StringLiteral(s)),
        Token::Identificador(_) => Some(Expr::Variavel(t)),
        _ => None,
    }
}

/// The binary operator a token denotes at the levels that build `Binario`
/// nodes; nothing for every other token.
pub open spec fn operador_binario(t: Token) -> Option<Operador> {
    match t {
        Token::Asterisco => Some(Operador::Asterisco),
        Token::Divisao => Some(Operador::Divisao),
        Token::Modulo => Some(Operador::Modulo),
        Token::Mais => Some(Operador::Mais),
        Token::Menos => Some(Operador::Menos),
        Token::DeslocamentoEsq => Some(Operador::DeslocamentoEsq),
        Token::DeslocamentoDir => Some(Operador::DeslocamentoDir),
        Token::Maior => Some(Operador::Maior),
        Token::Menor => Some(Operador::Menor),
        Token::MaiorOuIgual => Some(Operador::MaiorOuIgual),
        Token::MenorOuIgual => Some(Operador::MenorOuIgual),
        Token::Comparar => Some(Operador::Comparar),
        Token::Diferente => Some(Operador::Diferente),
        Token::EComercial => Some(Operador::EComercial),
        Token::BarraVertical => Some(Operador::BarraVertical),
        Token::EComercialDuplo => Some(Operador::EComercialDuplo),
        Token::BarraVerticalDupla => Some(Operador::BarraVerticalDupla),
        _ => None,
    }
}

/// The cascade level that consumes a binary operator token: tighter binding
/// means a smaller number; zero for tokens that are no binary operator.
pub open spec fn nivel_operador(t: Token) -> int {
    if t is Asterisco || t is Divisao || t is Modulo {
        2
    } else if t is Mais || t is Menos {
        3
    } else if t is DeslocamentoEsq || t is DeslocamentoDir {
        4
    } else if t is Maior || t is Menor || t is MaiorOuIgual || t is MenorOuIgual || t is Comparar
        || t is Diferente {
        5
    } else if t is EComercial {
        6
    } else if t is BarraVertical {
        7
    } else if t is EComercialDuplo {
        8
    } else if t is BarraVerticalDupla {
        9
    } else {
        0
    }
}

/// The binary node over two sub-expressions.
pub open spec fn binario_de(esquerda: Expr, operador: Operador, direita: Expr) -> Expr {
    Expr::Binario { esquerda: Box::new(esquerda), operador, direita: Box::new(direita) }
}

/// A compound-assignment operator token.
pub open spec fn eh_atribuicao_composta(t: Token) -> bool {
    ||| t is SomaIgual
    ||| t is SubtracaoIgual
    ||| t is MultiplicacaoIgual
    ||| t is DivisaoIgual
    ||| t is ModuloIgual
}

/// A prefix unary operator token: negation, logical not, address-of,
/// dereference, and the prefix increment and decrement.
pub open spec fn eh_prefixo_unario(t: Token) -> bool {
    ||| t is Menos
    ||| t is Decremento
    ||| t is Incremento
    ||| t is Negacao
    ||| t is EComercial
    ||| t is Asterisco
}

/// Tokens the postfix level does not consume after a complete operand.
pub open spec fn para_fator(t: Token) -> bool {
    !(t is Incremento) && !(t is Decremento) && !(t is AbreColchete)
}

/// Tokens the multiplicative level and everything tighter leave unconsumed.
pub open spec fn para_termo(t: Token) -> bool {
    para_fator(t) && !(t is Asterisco) && !(t is Divisao) && !(t is Modulo)
}

/// Tokens the additive level and everything tighter leave unconsumed.
pub open spec fn para_expressao(t: Token) -> bool {
    para_termo(t) && !(t is Mais) && !(t is Menos)
}

/// Tokens the shift level and everything tighter leave unconsumed.
pub open spec fn para_shift(t: Token) -> bool {
    para_expressao(t) && !(t is DeslocamentoEsq) && !(t is DeslocamentoDir)
}

/// Tokens the relational level and everything tighter leave unconsumed.
pub open spec fn para_comparacao(t: Token) -> bool {
    para_shift(t) && !(t is Maior) && !(t is Menor) && !(t is MaiorOuIgual) && !(t
        is MenorOuIgual) && !(t is Comparar) && !(t is Diferente)
}

/// Tokens the bitwise-and level and everything tighter leave unconsumed.
pub open spec fn para_bitwise_and(t: Token) -> bool {
    para_comparacao(t) && !(t is EComercial)
}

/// Tokens the bitwise-or level and everything tighter leave unconsumed.
pub open spec fn para_bitwise_or(t: Token) -> bool {
    para_bitwise_and(t) && !(t is BarraVertical)
}

/// Tokens the logical-and level and everything tighter leave unconsumed.
pub open spec fn para_logical_and(t: Token) -> bool {
    para_bitwise_or(t) && !(t is EComercialDuplo)
}

/// Tokens the logical-or level and everything tighter leave unconsumed.
pub open spec fn para_logical_or(t: Token) -> bool {
    para_logical_and(t) && !(t is BarraVerticalDupla)
}

/// Tokens no level of the expression cascade consumes after a complete
/// operand: on reading one, the cascade hands its expression back unchanged.
pub open spec fn para_atribuicao(t: Token) -> bool {
    para_logical_or(t) && !(t is Igual) && !eh_atribuicao_composta(t)
}


/// The expression a lone literal or variable token denotes, where one is
/// known to exist.
pub open spec fn atomo_de(t: Token) -> Expr {
    expr_atomo(t)->0
}

/// A keyword-free atom: a literal, or a variable whose name is none of the
/// statement keywords.
pub open spec fn atomo_sem_palavra_chave(t: Token) -> bool {
    expr_atomo(t) is Some && (t matches Token::Identificador(nm) ==> (nm@ != "if"@ && nm@
        != "return"@ && nm@ != "using"@ && nm@ != "else"@))
}

/// The shape `( atom ) atom ;` that follows an `if` keyword at the given
/// position of the buffer: a parenthesized atomic condition and an atomic
/// expression statement as the then branch.
pub open spec fn forma_if_simples(ts: Seq<(Token, usize)>, p: int) -> bool {
    &&& token_em(ts, p + 1) is AbreParentesis
    &&& atomo_sem_palavra_chave(token_em(ts, p + 2))
    &&& !(token_em(ts, p + 3) is AbreParentesis)
    &&& token_em(ts, p + 3) is FechaParentesis
    &&& atomo_sem_palavra_chave(token_em(ts, p + 4))
    &&& !(token_em(ts, p + 5) is AbreParentesis)
    &&& token_em(ts, p + 5) is PontoVirgula
}

/// The shape `else atom ;` at the given position: an `else` keyword, an
/// atomic expression statement, and no further `else`.
pub open spec fn forma_else_expressao(ts: Seq<(Token, usize)>, p: int) -> bool {
    &&& (token_em(ts, p) matches Token::Identificador(e) && e@ == "else"@)
    &&& atomo_sem_palavra_chave(token_em(ts, p + 1))
    &&& !(token_em(ts, p + 2) is AbreParentesis)
    &&& token_em(ts, p + 2) is PontoVirgula
    &&& (token_em(ts, p + 3) matches Token::Identificador(e2) ==> e2@ != "else"@)
}

/// The shape `else if ( atom ) atom ;` at the given position: an else-if arm
/// whose own condition and then branch are atomic.
pub open spec fn forma_else_if(ts: Seq<(Token, usize)>, p: int) -> bool {
    &&& (token_em(ts, p) matches Token::Identificador(e) && e@ == "else"@)
    &&& (token_em(ts, p + 1) matches Token::Identificador(nm) && nm@ == "if"@)
    &&& forma_if_simples(ts, p + 1)
}

/// The token shape of an expression statement whose second operator binds
/// tighter than the first: atom, operator, atom, tighter operator, atom, and
/// the terminating `;`, free of the statement keywords and of call or
/// pointer-declaration lookahead.
pub open spec fn forma_precedencia(ts: Seq<(Token, usize)>, p: int) -> bool {
    &&& expr_atomo(token_em(ts, p)) is Some
    &&& operador_binario(token_em(ts, p + 1)) is Some
    &&& expr_atomo(token_em(ts, p + 2)) is Some
    &&& operador_binario(token_em(ts, p + 3)) is Some
    &&& expr_atomo(token_em(ts, p + 4)) is Some
    &&& !para_atribuicao(token_em(ts, p + 1))
    &&& nivel_operador(token_em(ts, p + 3)) < nivel_operador(token_em(ts, p + 1))
    &&& (token_em(ts, p) matches Token::Identificador(nm) ==> (nm@ != "if"@ && nm@ != "return"@
        && nm@ != "using"@ && !(token_em(ts, p + 1) is Asterisco)))
    &&& (token_em(ts, p + 2) is Identificador ==> !(token_em(ts, p + 3) is AbreParentesis))
    &&& (token_em(ts, p + 4) is Identificador ==> !(token_em(ts, p + 5) is AbreParentesis))
    &&& token_em(ts, p + 5) is PontoVirgula
}

/// The tree that shape parses to: the tighter operator's node nests on the
/// right of the looser one.
pub open spec fn arvore_precedencia(ts: Seq<(Token, usize)>, p: int) -> Expr {
    binario_de(
        atomo_de(token_em(ts, p)),
        operador_binario(token_em(ts, p + 1))->0,
        binario_de(
            atomo_de(token_em(ts, p + 2)),
            operador_binario(token_em(ts, p + 3))->0,
            atomo_de(token_em(ts, p + 4)),
        ),
    )
}

/// The lookahead shape that names a function declaration: a type token, the
/// function's name, and the opening parenthesis.
pub open spec fn forma_cabecalho_funcao(ts: Seq<(Token, usize)>, p: int) -> bool {
    &&& token_em(ts, p) is Identificador
    &&& token_em(ts, p + 1) is Identificador
    &&& token_em(ts, p + 2) is AbreParentesis
}

/// The width of a declared parameter of the smallest shapes at a position: a
/// single type token and a name directly before `,` or `)`, or the same with
/// a bare `[]` or an atomic `[size]` suffix; nothing for any other shape.
pub open spec fn forma_parametro(ts: Seq<(Token, usize)>, q: int) -> Option<int> {
    if token_em(ts, q) is Identificador && token_em(ts, q + 1) is Identificador {
        if token_em(ts, q + 2) is AbreColchete {
            if token_em(ts, q + 3) is FechaColchete {
                Some(4int)
            } else if expr_atomo(token_em(ts, q + 3)) is Some && (token_em(
                ts,
                q + 3,
            ) is Identificador ==> !(token_em(ts, q + 4) is AbreParentesis)) && token_em(
                ts,
                q + 4,
            ) is FechaColchete {
                Some(5int)
            } else {
                None
            }
        } else if token_em(ts, q + 2) is Virgula || token_em(ts, q + 2) is FechaParentesis {
            Some(2int)
        } else {
            None
        }
    } else {
        None
    }
}

/// Whether a built parameter is the one the shape at a position declares.
pub open spec fn parametro_confere(par: Parametro, ts: Seq<(Token, usize)>, q: int) -> bool {
    &&& par.tipo@ =~= seq![token_em(ts, q)]
    &&& par.nome == token_em(ts, q + 1)
    &&& (forma_parametro(ts, q) == Some(2int) ==> par.tamanho_array is None)
    &&& (forma_parametro(ts, q) == Some(4int) ==> par.tamanho_array == Some(Expr::ArrayDim))
    &&& (forma_parametro(ts, q) == Some(5int) ==> par.tamanho_array == Some(
        atomo_de(token_em(ts, q + 3)),
    ))
}

/// A return statement over one binary expression: the `return` keyword, an
/// atom, a binary operator, an atom, and `;` — five tokens.
pub open spec fn forma_retorno_binario(ts: Seq<(Token, usize)>, q: int) -> bool {
    &&& (token_em(ts, q) matches Token::Identificador(nm) && nm@ == "return"@)
    &&& expr_atomo(token_em(ts, q + 1)) is Some
    &&& (token_em(ts, q + 1) is Identificador ==> !(token_em(ts, q + 2) is AbreParentesis))
    &&& operador_binario(token_em(ts, q + 2)) is Some
    &&& expr_atomo(token_em(ts, q + 3)) is Some
    &&& (token_em(ts, q + 3) is Identificador ==> !(token_em(ts, q + 4) is AbreParentesis))
    &&& token_em(ts, q + 4) is PontoVirgula
}

/// The statement that shape parses to.
pub open spec fn retorno_binario(ts: Seq<(Token, usize)>, q: int) -> Stmt {
    Stmt::Retorno(
        Some(
            binario_de(
                atomo_de(token_em(ts, q + 1)),
                operador_binario(token_em(ts, q + 2))->0,
                atomo_de(token_em(ts, q + 3)),
            ),
        ),
    )
}

/// An atomic expression statement: a keyword-free atom that opens no call,
/// then `;`.
pub open spec fn forma_expressao_atomica(ts: Seq<(Token, usize)>, q: int) -> bool {
    &&& atomo_sem_palavra_chave(token_em(ts, q))
    &&& token_em(ts, q + 1) is PontoVirgula
}

/// An operand of the smallest compound heads the contracts track at a
/// position: a lone atom, a prefix unary over an atom, a parenthesized atom,
/// or a parenthesized binary over atoms — with the expression it denotes and
/// the number of tokens it spans.
pub open spec fn forma_operando(ts: Seq<(Token, usize)>, q: int) -> Option<(Expr, int)> {
    let t = token_em(ts, q);
    if expr_atomo(t) is Some && (t is Identificador ==> !(token_em(ts, q + 1) is AbreParentesis)) {
        Some((atomo_de(t), 1int))
    } else if eh_prefixo_unario(t) && expr_atomo(token_em(ts, q + 1)) is Some && (token_em(
        ts,
        q + 1,
    ) is Identificador ==> !(token_em(ts, q + 2) is AbreParentesis)) {
        Some((Expr::Unario { operador: t, direita: Box::new(atomo_de(token_em(ts, q + 1))) }, 2int))
    } else if t is AbreParentesis && expr_atomo(token_em(ts, q + 1)) is Some && (token_em(
        ts,
        q + 1,
    ) is Identificador ==> !(token_em(ts, q + 2) is AbreParentesis)) && token_em(
        ts,
        q + 2,
    ) is FechaParentesis {
        Some((Expr::Agrupamento(Box::new(atomo_de(token_em(ts, q + 1)))), 3int))
    } else if t is AbreParentesis && expr_atomo(token_em(ts, q + 1)) is Some && (token_em(
        ts,
        q + 1,
    ) is Identificador ==> !(token_em(ts, q + 2) is AbreParentesis)) && operador_binario(
        token_em(ts, q + 2),
    ) is Some && expr_atomo(token_em(ts, q + 3)) is Some && (token_em(
        ts,
        q + 3,
    ) is Identificador ==> !(token_em(ts, q + 4) is AbreParentesis)) && token_em(
        ts,
        q + 4,
    ) is FechaParentesis {
        Some(
            (
                Expr::Agrupamento(
                    Box::new(
                        binario_de(
                            atomo_de(token_em(ts, q + 1)),
                            operador_binario(token_em(ts, q + 2))->0,
                            atomo_de(token_em(ts, q + 3)),
                        ),
                    ),
                ),
                5int,
            ),
        )
    } else {
        None
    }
}

/// A fatal parse failure: the line it was found on, the construct that was
/// expected there, and the token actually found.
#[derive(Debug)]
pub struct ErroParse {
    pub linha: usize,
    pub esperado: &'static str,
    pub encontrado: Token,
}

/// The parser: the token buffer, a cursor, and the token and line under the
/// cursor.
pub struct Parser {
    tokens: Vec<(Token, usize)>,
    posicao_atual: usize,
    token_atual: Token,
    linha_atual: usize,
}

impl Parser {
    /// The token buffer under analysis.
    pub closed spec fn tokens_spec(self) -> Seq<(Token, usize)> {
        self.tokens@
    }

    /// The cursor position.
    pub closed spec fn posicao_spec(self) -> int {
        self.posicao_atual as int
    }

    /// The token under the cursor, the end-of-input sentinel once the cursor
    /// has stepped past the last buffer entry.
    pub closed spec fn token_spec(self) -> Token {
        self.token_atual
    }

    /// The line tag under the cursor.
    pub closed spec fn linha_spec(self) -> int {
        self.linha_atual as int
    }

    /// The parser's internal consistency: on an empty buffer the cursor rests
    /// on the end-of-input sentinel; otherwise it stands on a buffer entry,
    /// carries that entry's line, and holds either that entry's token or the
    /// sentinel once the entry has been consumed.
    pub open spec fn bem_formado(self) -> bool {
        if self.tokens_spec().len() == 0 {
            &&& self.posicao_spec() == 0
            &&& self.token_spec() is Fundo
            &&& self.linha_spec() == 0
        } else {
            &&& 0 <= self.posicao_spec() < self.tokens_spec().len()
            &&& self.linha_spec() == self.tokens_spec()[self.posicao_spec()].1
            &&& (self.token_spec() == self.tokens_spec()[self.posicao_spec()].0
                || self.token_spec() is Fundo)
        }
    }

    /// How much input is left to consume: nothing once the cursor reads the
    /// end-of-input sentinel. Every token consumed shrinks it, which is what
    /// every `decreases` of the recursive descent rests on.
    pub open spec fn medida(self) -> int {
        if self.token_spec() is Fundo {
            0
        } else {
            self.tokens_spec().len() - self.posicao_spec()
        }
    }

    /// The parser state whose cursor has consumed the first `v` entries of a
    /// nonempty buffer: it reads the token and line tag at position `v`, the
    /// sentinel once `v` passes the end.
    pub open spec fn avancou(self, ts: Seq<(Token, usize)>, v: int) -> bool {
        &&& self.tokens_spec() == ts
        &&& self.token_spec() == token_em(ts, v)
        &&& self.posicao_spec() == (if v < ts.len() {
            v
        } else {
            ts.len() - 1
        })
        &&& self.linha_spec() == (if v < ts.len() {
            ts[v].1 as int
        } else {
            ts[ts.len() - 1].1 as int
        })
    }

    /// Builds a parser over a token buffer, with the cursor on its first
    /// entry; an empty buffer leaves the cursor on the end-of-input sentinel.
    pub fn new(tokens: Vec<(Token, usize)>) -> (p: Self)
        ensures
            p.bem_formado(),
            p.tokens_spec() == tokens@,
            tokens@.len() == 0 ==> p.token_spec() is Fundo,
            tokens@.len() > 0 ==> p.avancou(tokens@, 0),
    {
        let (token_atual, linha_atual) = if tokens.len() == 0 {
            (Token::Fundo, 0)
        } else {
            let par = &tokens[0];
            (par.0.clone(), par.1)
        };
        Self { tokens, posicao_atual: 0, token_atual, linha_atual }
    }

    /// Moves the cursor one token forward; past the last buffer entry it
    /// stays put and reads the end-of-input sentinel from then on.
    pub fn avancar(&mut self)
        requires
            old(self).bem_formado(),
        ensures
            final(self).bem_formado(),
            final(self).tokens_spec() == old(self).tokens_spec(),
            ({
                let ts = old(self).tokens_spec();
                let p = old(self).posicao_spec();
                if p + 1 < ts.len() {
                    final(self).posicao_spec() == p + 1 && final(self).token_spec() == ts[p + 1].0
                        && final(self).linha_spec() == ts[p + 1].1
                } else {
                    final(self).posicao_spec() == p && final(self).token_spec() is Fundo && final(self).linha_spec() == old(self).linha_spec()
                }
            }),
            !(old(self).token_spec() is Fundo) ==> final(self).medida() < old(self).medida(),
    {
        if self.posicao_atual < self.tokens.len() && self.tokens.len() - self.posicao_atual > 1 {
            self.posicao_atual = self.posicao_atual + 1;
            let par = &self.tokens[self.posicao_atual];
            self.token_atual = par.0.clone();
            self.linha_atual = par.1;
        } else {
            self.token_atual = Token::Fundo;
        }
    }

    /// Returns the token after the cursor without moving it, the end-of-input
    /// sentinel when none is left.
    fn espiadinha(&self) -> (t: Token)
        requires
            self.bem_formado(),
        ensures
            t == token_em(self.tokens_spec(), self.posicao_spec() + 1),
    {
        if self.posicao_atual < self.tokens.len() && self.tokens.len() - self.posicao_atual > 1 {
            self.tokens[self.posicao_atual + 1].0.clone()
        } else {
            Token::Fundo
        }
    }

    /// Returns the token two places after the cursor without moving it, the
    /// end-of-input sentinel when none is left.
    fn espiar_dois_passos(&self) -> (t: Token)
        requires
            self.bem_formado(),
        ensures
            t == token_em(self.tokens_spec(), self.posicao_spec() + 2),
    {
        if self.posicao_atual < self.tokens.len() && self.tokens.len() - self.posicao_atual > 2 {
            self.tokens[self.posicao_atual + 2].0.clone()
        } else {
            Token::Fundo
        }
    }

    /// Builds the fatal failure for the cursor's position: the current line,
    /// what was expected, and the token actually found.
    fn erro(&self, esperado: &'static str) -> (e: ErroParse)
        ensures
            e.linha as int == self.linha_spec(),
            e.esperado == esperado,
            e.encontrado == self.token_spec(),
    {
        ErroParse { linha: self.linha_atual, esperado, encontrado: self.token_atual.clone() }
    }

    /// The tightest-binding level. A numeric literal converts to its value
    /// here, failing fatally only when the digit text does not convert; an
    /// identifier directly followed by `(` parses as a call with a
    /// comma-separated, assignment-level argument list; a bare identifier is
    /// a variable reference; `(` recurses into a full assignment-level
    /// expression and requires the matching `)`; a prefix operator recurses
    /// into another primary, so unary operators stack and bind tighter than
    /// every binary level. Any other token is a fatal failure.
    pub fn parse_primario(&mut self) -> (r: Result<Expr, ErroParse>)
        requires
            old(self).bem_formado(),
        ensures
            final(self).bem_formado(),
            final(self).tokens_spec() == old(self).tokens_spec(),
            final(self).medida() <= old(self).medida(),
            r matches Ok(e) ==> expr_bem_formada(e) && final(self).medida() < old(self).medida(),
            r matches Err(err) ==> err.linha as int == final(self).linha_spec() && err.encontrado
                == final(self).token_spec(),
            ({
                let ts = old(self).tokens_spec();
                let p = old(self).posicao_spec();
                let t0 = old(self).token_spec();
                expr_atomo(t0) matches Some(ea) ==> ((t0 is Identificador ==> !(token_em(
                    ts,
                    p + 1,
                ) is AbreParentesis)) ==> (r matches Ok(e) && e == ea && final(self).avancou(
                    ts,
                    p + 1,
                )))
            }),
            ({
                let t0 = old(self).token_spec();
                (expr_atomo(t0) is None && !(t0 is NumeroInt) && !eh_prefixo_unario(t0) && !(t0
                    is AbreParentesis)) ==> ((r matches Err(err) && err.esperado@ == "primario"@)
                    && *final(self) == *old(self))
            }),
            ({
                let t0 = old(self).token_spec();
                t0 matches Token::NumeroInt(texto) ==> (i64_do_texto(texto@) is None ==> ((
                r matches Err(err) && err.esperado@ == "literal inteiro representavel"@)
                    && *final(self) == *old(self)))
            }),
            ({
                let ts = old(self).tokens_spec();
                let p = old(self).posicao_spec();
                let t0 = old(self).token_spec();
                expr_atomo(token_em(ts, p + 1)) matches Some(a1) ==> ((eh_prefixo_unario(t0) && (
                token_em(ts, p + 1) is Identificador ==> !(token_em(ts, p + 2) is AbreParentesis)))
                    ==> ((r matches Ok(e) && e == Expr::Unario {
                    operador: t0,
                    direita: Box::new(a1),
                }) && final(self).avancou(ts, p + 2)))
            }),
            ({
                let ts = old(self).tokens_spec();
                let p = old(self).posicao_spec();
                let t0 = old(self).token_spec();
                expr_atomo(token_em(ts, p + 2)) matches Some(a2) ==> ((eh_prefixo_unario(t0)
                    && eh_prefixo_unario(token_em(ts, p + 1)) && (token_em(
                    ts,
                    p + 2,
                ) is Identificador ==> !(token_em(ts, p + 3) is AbreParentesis))) ==> ((
                r matches Ok(e) && e == Expr::Unario {
                    operador: t0,
                    direita: Box::new(
                        Expr::Unario { operador: token_em(ts, p + 1), direita: Box::new(a2) },
                    ),
                }) && final(self).avancou(ts, p + 3)))
            }),
            ({
                let ts = old(self).tokens_spec();
                let p = old(self).posicao_spec();
                let t0 = old(self).token_spec();
                expr_atomo(token_em(ts, p + 1)) matches Some(a1) ==> ((t0 is AbreParentesis && (
                token_em(ts, p + 1) is Identificador ==> !(token_em(ts, p + 2) is AbreParentesis))
                    && token_em(ts, p + 2) is FechaParentesis) ==> ((r matches Ok(e) && e
                    == Expr::Agrupamento(Box::new(a1))) && final(self).avancou(ts, p + 3)))
            }),
            ({
                let ts = old(self).tokens_spec();
                let p = old(self).posicao_spec();
                let t0 = old(self).token_spec();
                expr_atomo(token_em(ts, p + 1)) matches Some(a1) ==> (expr_atomo(
                    token_em(ts, p + 3),
                ) matches Some(a3) ==> (operador_binario(token_em(ts, p + 2)) matches Some(op)
                    ==> ((t0 is AbreParentesis && !para_atribuicao(token_em(ts, p + 2)) && (
                token_em(ts, p + 3) is Identificador ==> !(token_em(ts, p + 4) is AbreParentesis))
                    && token_em(ts, p + 4) is FechaParentesis) ==> ((r matches Ok(e) && e
                    == Expr::Agrupamento(
                    Box::new(
                        Expr::Binario {
                            esquerda: Box::new(a1),
                            operador: op,
                            direita: Box::new(a3),
                        },
                    ),
                )) && final(self).avancou(ts, p + 5)))))
            }),
            ({
                let ts = old(self).tokens_spec();
                let p = old(self).posicao_spec();
                let t0 = old(self).token_spec();
                (t0 is Identificador && token_em(ts, p + 1) is AbreParentesis && token_em(
                    ts,
                    p + 2,
                ) is FechaParentesis) ==> ((r matches Ok(e) && (e matches Expr::ChamadaFuncao {
                    callee,
                    argumentos,
                } && *callee == Expr::Variavel(t0) && argumentos@.len() == 0)) && final(self).avancou(ts, p + 3))
            }),
            ({
                let ts = old(self).tokens_spec();
                let p = old(self).posicao_spec();
                let t0 = old(self).token_spec();
                expr_atomo(token_em(ts, p + 2)) matches Some(a2) ==> ((t0 is Identificador
                    && token_em(ts, p + 1) is AbreParentesis && (token_em(
                    ts,
                    p + 2,
                ) is Identificador ==> !(token_em(ts, p + 3) is AbreParentesis)) && token_em(
                    ts,
                    p + 3,
                ) is FechaParentesis) ==> ((r matches Ok(e) && (e matches Expr::ChamadaFuncao {
                    callee,
                    argumentos,
                } && *callee == Expr::Variavel(t0) && argumentos@ =~= seq![a2])) && final(self).avancou(ts, p + 4)))
            }),
            ({
                let ts = old(self).tokens_spec();
                let p = old(self).posicao_spec();
                let t0 = old(self).token_spec();
                expr_atomo(token_em(ts, p + 2)) matches Some(a2) ==> (expr_atomo(
                    token_em(ts, p + 4),
                ) matches Some(a4) ==> ((t0 is Identificador && token_em(
                    ts,
                    p + 1,
                ) is AbreParentesis && (token_em(ts, p + 2) is Identificador ==> !(token_em(
                    ts,
                    p + 3,
                ) is AbreParentesis)) && token_em(ts, p + 3) is Virgula && (token_em(
                    ts,
                    p + 4,
                ) is Identificador ==> !(token_em(ts, p + 5) is AbreParentesis)) && token_em(
                    ts,
                    p + 5,
                ) is FechaParentesis) ==> ((r matches Ok(e) && (e matches Expr::ChamadaFuncao {
                    callee,
                    argumentos,
                } && *callee == Expr::Variavel(t0) && argumentos@ =~= seq![a2, a4])) && final(self).avancou(ts, p + 6))))
            }),
            ({
                let ts = old(self).tokens_spec();
                let p = old(self).posicao_spec();
                let t0 = old(self).token_spec();
                forma_operando(ts, p) matches Some(par) ==> (t0 == token_em(ts, p) ==> ((
                r matches Ok(e) && e == par.0) && final(self).avancou(ts, p + par.1)))
            }),
        decreases old(self).medida(), 0int,
    {
        let eh_unario = match &self.token_atual {
            Token::Menos => true,
            Token::Decremento => true,
            Token::Incremento => true,
            Token::Negacao => true,
            Token::EComercial => true,
            Token::Asterisco => true,
            _ => false,
        };
        if eh_unario {
            let operador = self.token_atual.clone();
            self.avancar();
            let direita = match self.parse_primario() {
                Ok(e) => e,
                Err(err) => {
                    return Err(err);
                },
            };
            return Ok(Expr::Unario { operador, direita: Box::new(direita) });
        }
        if matches!(&self.token_atual, Token::AbreParentesis) {
            self.avancar();
            let expr = match self.parse_atribuicao() {
                Ok(e) => e,
                Err(err) => {
                    return Err(err);
                },
            };
            if matches!(&self.token_atual, Token::FechaParentesis) {
                self.avancar();
                return Ok(Expr::Agrupamento(Box::new(expr)));
            }
            return Err(self.erro("')'"));
        }
        if matches!(&self.token_atual, Token::Identificador(_)) {
            let chamada = matches!(self.espiadinha(), Token::AbreParentesis);
            if chamada {
                let ghost ts = self.tokens_spec();
                let ghost p = self.posicao_spec();
                let ghost t0 = self.token_spec();
                let ghost m0 = self.medida();
                let nome = self.token_atual.clone();
                self.avancar();
                self.avancar();
                let mut argumentos: Vec<Expr> = Vec::new();
                if !matches!(&self.token_atual, Token::FechaParentesis) {
                    loop
                        invariant_except_break
                            expr_atomo(token_em(ts, p + 2)) matches Some(a2) ==> (((token_em(
                                ts,
                                p + 2,
                            ) is Identificador ==> !(token_em(ts, p + 3) is AbreParentesis))
                                && token_em(ts, p + 3) is FechaParentesis) ==> (self.avancou(
                                ts,
                                p + 2,
                            ) && argumentos@.len() == 0)),
                            expr_atomo(token_em(ts, p + 2)) matches Some(a2) ==> (expr_atomo(
                                token_em(ts, p + 4),
                            ) matches Some(a4) ==> (((token_em(ts, p + 2) is Identificador ==> !(
                            token_em(ts, p + 3) is AbreParentesis)) && token_em(
                                ts,
                                p + 3,
                            ) is Virgula && (token_em(ts, p + 4) is Identificador ==> !(token_em(
                                ts,
                                p + 5,
                            ) is AbreParentesis)) && token_em(ts, p + 5) is FechaParentesis) ==> ((
                            self.avancou(ts, p + 2) && argumentos@.len() == 0) || (self.avancou(
                                ts,
                                p + 4,
                            ) && argumentos@ =~= seq![a2])))),
                        invariant
                            ts == old(self).tokens_spec(),
                            p == old(self).posicao_spec(),
                            t0 == old(self).token_spec(),
                            m0 == old(self).medida(),
                            t0 is Identificador,
                            token_em(ts, p + 1) is AbreParentesis,
                            !(token_em(ts, p + 2) is FechaParentesis),
                            self.bem_formado(),
                            self.tokens_spec() == ts,
                            self.medida() < m0,
                            forall|i: int|
                                0 <= i < argumentos@.len() ==> expr_bem_formada(
                                    #[trigger] argumentos@[i],
                                ),
                        ensures
                            self.bem_formado(),
                            self.tokens_spec() == ts,
                            self.medida() < m0,
                            forall|i: int|
                                0 <= i < argumentos@.len() ==> expr_bem_formada(
                                    #[trigger] argumentos@[i],
                                ),
                            expr_atomo(token_em(ts, p + 2)) matches Some(a2) ==> (((token_em(
                                ts,
                                p + 2,
                            ) is Identificador ==> !(token_em(ts, p + 3) is AbreParentesis))
                                && token_em(ts, p + 3) is FechaParentesis) ==> (self.avancou(
                                ts,
                                p + 3,
                            ) && argumentos@ =~= seq![a2])),
                            expr_atomo(token_em(ts, p + 2)) matches Some(a2) ==> (expr_atomo(
                                token_em(ts, p + 4),
                            ) matches Some(a4) ==> (((token_em(ts, p + 2) is Identificador ==> !(
                            token_em(ts, p + 3) is AbreParentesis)) && token_em(
                                ts,
                                p + 3,
                            ) is Virgula && (token_em(ts, p + 4) is Identificador ==> !(token_em(
                                ts,
                                p + 5,
                            ) is AbreParentesis)) && token_em(ts, p + 5) is FechaParentesis) ==> (
                            self.avancou(ts, p + 5) && argumentos@ =~= seq![a2, a4]))),
                        decreases self.medida(),
                    {
                        let argumento = match self.parse_atribuicao() {
                            Ok(e) => e,
                            Err(err) => {
                                return Err(err);
                            },
                        };
                        argumentos.push(argumento);
                        if matches!(&self.token_atual, Token::Virgula) {
                            self.avancar();
                        } else {
                            break ;
                        }
                    }
                }
                if !matches!(&self.token_atual, Token::FechaParentesis) {
                    return Err(self.erro("')' depois dos argumentos"));
                }
                self.avancar();
                let resultado = Expr::ChamadaFuncao {
                    callee: Box::new(Expr::Variavel(nome)),
                    argumentos,
                };
                proof {
                    assert(expr_bem_formada(resultado)) by {
                        assert(expr_bem_formada(Expr::Variavel(nome)));
                    }
                }
                return Ok(resultado);
            }
            let expr = Expr::Variavel(self.token_atual.clone());
            self.avancar();
            return Ok(expr);
        }
        let expr = match &self.token_atual {
            Token::NumeroInt(valor_string) => {
                match converter_para_i64(valor_string) {
                    Some(valor) => Expr::NumeroInt(valor),
                    None => {
                        return Err(self.erro("literal inteiro representavel"));
                    },
                }
            },
            Token::NumeroFloat(valor_string) => Expr::NumeroFloat(valor_string.clone()),
            Token::ConteudoChar(valor_char) => Expr::CharLiteral(*valor_char),
            Token::Texto(valor_string) => Expr::StringLiteral(valor_string.clone()),
            _ => {
                return Err(self.erro("primario"));
            },
        };
        self.avancar();
        Ok(expr)
    }

    /// The postfix level: array indexing and the postfix increment and
    /// decrement, applied to a primary, left associative. A lone postfix
    /// operator or index over lone operands owes the one wrapped node.
    pub fn parse_fator(&mut self) -> (r: Result<Expr, ErroParse>)
        requires
            old(self).bem_formado(),
        ensures
            final(self).bem_formado(),
            final(self).tokens_spec() == old(self).tokens_spec(),
            final(self).medida() <= old(self).medida(),
            r matches Ok(e) ==> expr_bem_formada(e) && final(self).medida() < old(self).medida(),
            r matches Err(err) ==> err.linha as int == final(self).linha_spec() && err.encontrado
                == final(self).token_spec(),
            ({
                let ts = old(self).tokens_spec();
                let p = old(self).posicao_spec();
                let t0 = old(self).token_spec();
                expr_atomo(t0) matches Some(ea) ==> (((t0 is Identificador ==> !(token_em(
                    ts,
                    p + 1,
                ) is AbreParentesis)) && para_fator(token_em(ts, p + 1))) ==> ((r matches Ok(e)
                    && e == ea) && final(self).avancou(ts, p + 1)))
            }),
            ({
                let ts = old(self).tokens_spec();
                let p = old(self).posicao_spec();
                let t0 = old(self).token_spec();
                expr_atomo(t0) matches Some(a0) ==> (((token_em(ts, p + 1) is Incremento
                    || token_em(ts, p + 1) is Decremento) && para_fator(token_em(ts, p + 2)))
                    ==> ((r matches Ok(e) && e == Expr::Posfixa {
                    expressao: Box::new(a0),
                    operador: token_em(ts, p + 1),
                }) && final(self).avancou(ts, p + 2)))
            }),
            ({
                let ts = old(self).tokens_spec();
                let p = old(self).posicao_spec();
                let t0 = old(self).token_spec();
                expr_atomo(t0) matches Some(a0) ==> (expr_atomo(token_em(ts, p + 2)) matches Some(
                    a2,
                ) ==> ((token_em(ts, p + 1) is AbreColchete && (token_em(
                    ts,
                    p + 2,
                ) is Identificador ==> !(token_em(ts, p + 3) is AbreParentesis)) && token_em(
                    ts,
                    p + 3,
                ) is FechaColchete && para_fator(token_em(ts, p + 4))) ==> ((r matches Ok(e) && e
                    == Expr::AcessoArray { nome: Box::new(a0), indice: Box::new(a2) }) && final(self).avancou(ts, p + 4))))
            }),
            ({
                let ts = old(self).tokens_spec();
                let p = old(self).posicao_spec();
                let t0 = old(self).token_spec();
                expr_atomo(t0) matches Some(a0) ==> (expr_atomo(token_em(ts, p + 2)) matches Some(
                    a2,
                ) ==> ((token_em(ts, p + 1) is AbreColchete && (token_em(
                    ts,
                    p + 2,
                ) is Identificador ==> !(token_em(ts, p + 3) is AbreParentesis)) && token_em(
                    ts,
                    p + 3,
                ) is FechaColchete && (token_em(ts, p + 4) is Incremento || token_em(
                    ts,
                    p + 4,
                ) is Decremento) && para_fator(token_em(ts, p + 5))) ==> ((r matches Ok(e) && e
                    == Expr::Posfixa {
                    expressao: Box::new(
                        Expr::AcessoArray { nome: Box::new(a0), indice: Box::new(a2) },
                    ),
                    operador: token_em(ts, p + 4),
                }) && final(self).avancou(ts, p + 5))))
            }),
            ({
                let ts = old(self).tokens_spec();
                let p = old(self).posicao_spec();
                let t0 = old(self).token_spec();
                forma_operando(ts, p) matches Some(par) ==> ((t0 == token_em(ts, p) && para_fator(
                    token_em(ts, p + par.1),
                )) ==> ((r matches Ok(e) && e == par.0) && final(self).avancou(ts, p + par.1)))
            }),
        decreases old(self).medida(), 1int,
    {
        let ghost ts = self.tokens_spec();
        let ghost p = self.posicao_spec();
        let ghost t0 = self.token_spec();
        let ghost m0 = self.medida();
        let mut expr = match self.parse_primario() {
            Ok(e) => e,
            Err(err) => {
                return Err(err);
            },
        };
        loop
            invariant
                ts == old(self).tokens_spec(),
                p == old(self).posicao_spec(),
                t0 == old(self).token_spec(),
                m0 == old(self).medida(),
                self.bem_formado(),
                self.tokens_spec() == ts,
                self.medida() < m0,
                expr_bem_formada(expr),
                expr_atomo(t0) matches Some(ea) ==> (((t0 is Identificador ==> !(token_em(
                    ts,
                    p + 1,
                ) is AbreParentesis)) && para_fator(token_em(ts, p + 1))) ==> (expr == ea
                    && self.avancou(ts, p + 1))),
                expr_atomo(t0) matches Some(a0) ==> (((token_em(ts, p + 1) is Incremento
                    || token_em(ts, p + 1) is Decremento) && para_fator(token_em(ts, p + 2)))
                    ==> ((self.avancou(ts, p + 1) && expr == a0) || (self.avancou(ts, p + 2)
                    && expr == Expr::Posfixa {
                    expressao: Box::new(a0),
                    operador: token_em(ts, p + 1),
                }))),
                expr_atomo(t0) matches Some(a0) ==> (expr_atomo(token_em(ts, p + 2)) matches Some(
                    a2,
                ) ==> ((token_em(ts, p + 1) is AbreColchete && (token_em(
                    ts,
                    p + 2,
                ) is Identificador ==> !(token_em(ts, p + 3) is AbreParentesis)) && token_em(
                    ts,
                    p + 3,
                ) is FechaColchete && para_fator(token_em(ts, p + 4))) ==> ((self.avancou(
                    ts,
                    p + 1,
                ) && expr == a0) || (self.avancou(ts, p + 4) && expr == Expr::AcessoArray {
                    nome: Box::new(a0),
                    indice: Box::new(a2),
                })))),
                expr_atomo(t0) matches Some(a0) ==> (expr_atomo(token_em(ts, p + 2)) matches Some(
                    a2,
                ) ==> ((token_em(ts, p + 1) is AbreColchete && (token_em(
                    ts,
                    p + 2,
                ) is Identificador ==> !(token_em(ts, p + 3) is AbreParentesis)) && token_em(
                    ts,
                    p + 3,
                ) is FechaColchete && (token_em(ts, p + 4) is Incremento || token_em(
                    ts,
                    p + 4,
                ) is Decremento) && para_fator(token_em(ts, p + 5))) ==> ((self.avancou(
                    ts,
                    p + 1,
                ) && expr == a0) || (self.avancou(ts, p + 4) && expr == Expr::AcessoArray {
                    nome: Box::new(a0),
                    indice: Box::new(a2),
                }) || (self.avancou(ts, p + 5) && expr == Expr::Posfixa {
                    expressao: Box::new(
                        Expr::AcessoArray { nome: Box::new(a0), indice: Box::new(a2) },
                    ),
                    operador: token_em(ts, p + 4),
                })))),
                forma_operando(ts, p) matches Some(par) ==> ((t0 == token_em(ts, p) && para_fator(
                    token_em(ts, p + par.1),
                )) ==> (expr == par.0 && self.avancou(ts, p + par.1))),
            ensures
                self.bem_formado(),
                self.tokens_spec() == ts,
                self.medida() < m0,
                expr_bem_formada(expr),
                expr_atomo(t0) matches Some(ea) ==> (((t0 is Identificador ==> !(token_em(
                    ts,
                    p + 1,
                ) is AbreParentesis)) && para_fator(token_em(ts, p + 1))) ==> (expr == ea
                    && self.avancou(ts, p + 1))),
                expr_atomo(t0) matches Some(a0) ==> (((token_em(ts, p + 1) is Incremento
                    || token_em(ts, p + 1) is Decremento) && para_fator(token_em(ts, p + 2)))
                    ==> (self.avancou(ts, p + 2) && expr == Expr::Posfixa {
                    expressao: Box::new(a0),
                    operador: token_em(ts, p + 1),
                })),
                expr_atomo(t0) matches Some(a0) ==> (expr_atomo(token_em(ts, p + 2)) matches Some(
                    a2,
                ) ==> ((token_em(ts, p + 1) is AbreColchete && (token_em(
                    ts,
                    p + 2,
                ) is Identificador ==> !(token_em(ts, p + 3) is AbreParentesis)) && token_em(
                    ts,
                    p + 3,
                ) is FechaColchete && para_fator(token_em(ts, p + 4))) ==> (self.avancou(
                    ts,
                    p + 4,
                ) && expr == Expr::AcessoArray { nome: Box::new(a0), indice: Box::new(a2) }))),
                expr_atomo(t0) matches Some(a0) ==> (expr_atomo(token_em(ts, p + 2)) matches Some(
                    a2,
                ) ==> ((token_em(ts, p + 1) is AbreColchete && (token_em(
                    ts,
                    p + 2,
                ) is Identificador ==> !(token_em(ts, p + 3) is AbreParentesis)) && token_em(
                    ts,
                    p + 3,
                ) is FechaColchete && (token_em(ts, p + 4) is Incremento || token_em(
                    ts,
                    p + 4,
                ) is Decremento) && para_fator(token_em(ts, p + 5))) ==> (self.avancou(ts, p + 5)
                    && expr == Expr::Posfixa {
                    expressao: Box::new(
                        Expr::AcessoArray { nome: Box::new(a0), indice: Box::new(a2) },
                    ),
                    operador: token_em(ts, p + 4),
                }))),
                forma_operando(ts, p) matches Some(par) ==> ((t0 == token_em(ts, p) && para_fator(
                    token_em(ts, p + par.1),
                )) ==> (expr == par.0 && self.avancou(ts, p + par.1))),
            decreases self.medida(),
        {
            let eh_posfixo = match &self.token_atual {
                Token::Incremento => true,
                Token::Decremento => true,
                _ => false,
            };
            if eh_posfixo {
                let operador_posfixo = self.token_atual.clone();
                self.avancar();
                expr = Expr::Posfixa { expressao: Box::new(expr), operador: operador_posfixo };
            } else if matches!(&self.token_atual, Token::AbreColchete) {
                self.avancar();
                let indice = match self.parse_atribuicao() {
                    Ok(e) => e,
                    Err(err) => {
                        return Err(err);
                    },
                };
                if !matches!(&self.token_atual, Token::FechaColchete) {
                    return Err(self.erro("']' depois do indice do array"));
                }
                self.avancar();
                expr = Expr::AcessoArray { nome: Box::new(expr), indice: Box::new(indice) };
            } else {
                break ;
            }
        }
        Ok(expr)
    }

    /// The lowest level: assignment, right associative and target-restricted.
    /// A `=` or compound-assignment operator after a complete left side
    /// demands that the left side already be a variable reference, an
    /// array-index access or a unary expression, and fails fatally otherwise;
    /// the compound form keeps the literal operator token.
    pub fn parse_atribuicao(&mut self) -> (r: Result<Expr, ErroParse>)
        requires
            old(self).bem_formado(),
        ensures
            final(self).bem_formado(),
            final(self).tokens_spec() == old(self).tokens_spec(),
            final(self).medida() <= old(self).medida(),
            r matches Ok(e) ==> expr_bem_formada(e) && final(self).medida() < old(self).medida(),
            r matches Err(err) ==> err.linha as int == final(self).linha_spec() && err.encontrado
                == final(self).token_spec(),
            ({
                let ts = old(self).tokens_spec();
                let p = old(self).posicao_spec();
                let t0 = old(self).token_spec();
                expr_atomo(t0) matches Some(ea) ==> (((t0 is Identificador ==> !(token_em(
                    ts,
                    p + 1,
                ) is AbreParentesis)) && para_atribuicao(token_em(ts, p + 1))) ==> ((r matches Ok(e) && e == ea) && final(self).avancou(ts, p + 1)))
            }),
            ({
                let ts = old(self).tokens_spec();
                let p = old(self).posicao_spec();
                let t0 = old(self).token_spec();
                expr_atomo(t0) matches Some(a0) ==> (expr_atomo(token_em(ts, p + 2)) matches Some(
                    a2,
                ) ==> (operador_binario(token_em(ts, p + 1)) matches Some(op) ==> ((
                !para_atribuicao(token_em(ts, p + 1)) && (token_em(ts, p + 2) is Identificador
                    ==> !(token_em(ts, p + 3) is AbreParentesis)) && para_atribuicao(
                    token_em(ts, p + 3),
                )) ==> ((r matches Ok(e) && e == binario_de(a0, op, a2)) && final(self).avancou(ts, p + 3)))))
            }),
            ({
                let ts = old(self).tokens_spec();
                let p = old(self).posicao_spec();
                let t0 = old(self).token_spec();
                expr_atomo(t0) matches Some(a0) ==> (expr_atomo(token_em(ts, p + 2)) matches Some(
                    a2,
                ) ==> (expr_atomo(token_em(ts, p + 4)) matches Some(a4) ==> (operador_binario(
                    token_em(ts, p + 1),
                ) matches Some(op1) ==> (operador_binario(token_em(ts, p + 3)) matches Some(
                    op2,
                ) ==> ((!para_atribuicao(token_em(ts, p + 1)) && nivel_operador(
                    token_em(ts, p + 3),
                ) < nivel_operador(token_em(ts, p + 1)) && (token_em(ts, p + 2) is Identificador
                    ==> !(token_em(ts, p + 3) is AbreParentesis)) && (token_em(
                    ts,
                    p + 4,
                ) is Identificador ==> !(token_em(ts, p + 5) is AbreParentesis))
                    && para_atribuicao(token_em(ts, p + 5))) ==> ((r matches Ok(e) && e
                    == binario_de(a0, op1, binario_de(a2, op2, a4))) && final(self).avancou(ts, p + 5)))))))
            }),
            ({
                let ts = old(self).tokens_spec();
                let p = old(self).posicao_spec();
                let t0 = old(self).token_spec();
                expr_atomo(t0) matches Some(a0) ==> (expr_atomo(token_em(ts, p + 2)) matches Some(
                    a2,
                ) ==> (expr_atomo(token_em(ts, p + 4)) matches Some(a4) ==> (operador_binario(
                    token_em(ts, p + 1),
                ) matches Some(op1) ==> (operador_binario(token_em(ts, p + 3)) matches Some(
                    op2,
                ) ==> ((!para_atribuicao(token_em(ts, p + 1)) && !para_atribuicao(
                    token_em(ts, p + 3),
                ) && nivel_operador(token_em(ts, p + 3)) >= nivel_operador(token_em(ts, p + 1))
                    && (token_em(ts, p + 2) is Identificador ==> !(token_em(
                    ts,
                    p + 3,
                ) is AbreParentesis)) && (token_em(ts, p + 4) is Identificador ==> !(token_em(
                    ts,
                    p + 5,
                ) is AbreParentesis)) && para_atribuicao(token_em(ts, p + 5))) ==> ((r matches Ok(
                    e,
                ) && e == binario_de(binario_de(a0, op1, a2), op2, a4)) && final(self).avancou(ts, p + 5)))))))
            }),
            ({
                let ts = old(self).tokens_spec();
                let p = old(self).posicao_spec();
                let t0 = old(self).token_spec();
                expr_atomo(t0) matches Some(a0) ==> ((!(t0 is Identificador) && (token_em(
                    ts,
                    p + 1,
                ) is Igual || eh_atribuicao_composta(token_em(ts, p + 1)))) ==> r is Err)
            }),
            ({
                let ts = old(self).tokens_spec();
                let p = old(self).posicao_spec();
                let t0 = old(self).token_spec();
                expr_atomo(token_em(ts, p + 2)) matches Some(a2) ==> ((t0 is Identificador
                    && token_em(ts, p + 1) is Igual && (token_em(ts, p + 2) is Identificador
                    ==> !(token_em(ts, p + 3) is AbreParentesis)) && para_atribuicao(
                    token_em(ts, p + 3),
                )) ==> ((r matches Ok(e) && e == Expr::Atribuicao {
                    alvo: Box::new(Expr::Variavel(t0)),
                    valor: Box::new(a2),
                }) && final(self).avancou(ts, p + 3)))
            }),
            ({
                let ts = old(self).tokens_spec();
                let p = old(self).posicao_spec();
                let t0 = old(self).token_spec();
                expr_atomo(token_em(ts, p + 4)) matches Some(a4) ==> ((t0 is Identificador
                    && token_em(ts, p + 1) is Igual && token_em(ts, p + 2) is Identificador
                    && token_em(ts, p + 3) is Igual && (token_em(ts, p + 4) is Identificador
                    ==> !(token_em(ts, p + 5) is AbreParentesis)) && para_atribuicao(
                    token_em(ts, p + 5),
                )) ==> ((r matches Ok(e) && e == Expr::Atribuicao {
                    alvo: Box::new(Expr::Variavel(t0)),
                    valor: Box::new(
                        Expr::Atribuicao {
                            alvo: Box::new(Expr::Variavel(token_em(ts, p + 2))),
                            valor: Box::new(a4),
                        },
                    ),
                }) && final(self).avancou(ts, p + 5)))
            }),
            ({
                let ts = old(self).tokens_spec();
                let p = old(self).posicao_spec();
                let t0 = old(self).token_spec();
                expr_atomo(token_em(ts, p + 2)) matches Some(a2) ==> ((t0 is Identificador
                    && eh_atribuicao_composta(token_em(ts, p + 1)) && (token_em(
                    ts,
                    p + 2,
                ) is Identificador ==> !(token_em(ts, p + 3) is AbreParentesis))
                    && para_atribuicao(token_em(ts, p + 3))) ==> ((r matches Ok(e) && e
                    == Expr::AtribuicaoComposta {
                    alvo: Box::new(Expr::Variavel(t0)),
                    operador: token_em(ts, p + 1),
                    valor: Box::new(a2),
                }) && final(self).avancou(ts, p + 3)))
            }),
            ({
                let ts = old(self).tokens_spec();
                let p = old(self).posicao_spec();
                let t0 = old(self).token_spec();
                forma_operando(ts, p) matches Some(par) ==> ((t0 == token_em(ts, p)
                    && para_atribuicao(token_em(ts, p + par.1))) ==> ((r matches Ok(e) && e
                    == par.0) && final(self).avancou(ts, p + par.1)))
            }),
            ({
                let ts = old(self).tokens_spec();
                let p = old(self).posicao_spec();
                let t0 = old(self).token_spec();
                forma_operando(ts, p) matches Some(par0) ==> (forma_operando(
                    ts,
                    p + par0.1 + 1,
                ) matches Some(par1) ==> (operador_binario(token_em(ts, p + par0.1)) matches Some(
                    op,
                ) ==> ((t0 == token_em(ts, p) && !para_atribuicao(token_em(ts, p + par0.1))
                    && para_atribuicao(token_em(ts, p + par0.1 + 1 + par1.1))) ==> ((r matches Ok(
                    e,
                ) && e == binario_de(par0.0, op, par1.0)) && final(self).avancou(
                    ts,
                    p + par0.1 + 1 + par1.1,
                )))))
            }),
            ({
                let ts = old(self).tokens_spec();
                let p = old(self).posicao_spec();
                let t0 = old(self).token_spec();
                forma_operando(ts, p) matches Some(par0) ==> (forma_operando(
                    ts,
                    p + par0.1 + 1,
                ) matches Some(par1) ==> ((t0 == token_em(ts, p) && token_em(
                    ts,
                    p + par0.1,
                ) is Igual && para_atribuicao(token_em(ts, p + par0.1 + 1 + par1.1))) ==> (
                if alvo_valido(par0.0) {
                    (r matches Ok(e) && e == Expr::Atribuicao {
                        alvo: Box::new(par0.0),
                        valor: Box::new(par1.0),
                    }) && final(self).avancou(ts, p + par0.1 + 1 + par1.1)
                } else {
                    r is Err
                })))
            }),
            ({
                let ts = old(self).tokens_spec();
                let p = old(self).posicao_spec();
                let t0 = old(self).token_spec();
                forma_operando(ts, p) matches Some(par0) ==> (forma_operando(
                    ts,
                    p + par0.1 + 1,
                ) matches Some(par1) ==> ((t0 == token_em(ts, p) && eh_atribuicao_composta(
                    token_em(ts, p + par0.1),
                ) && para_atribuicao(token_em(ts, p + par0.1 + 1 + par1.1))) ==> (
                if alvo_valido(par0.0) {
                    (r matches Ok(e) && e == Expr::AtribuicaoComposta {
                        alvo: Box::new(par0.0),
                        operador: token_em(ts, p + par0.1),
                        valor: Box::new(par1.0),
                    }) && final(self).avancou(ts, p + par0.1 + 1 + par1.1)
                } else {
                    r is Err
                })))
            }),
        decreases old(self).medida(), 10int,
    {
        let expr_esquerda = match self.parse_logical_or() {
            Ok(e) => e,
            Err(err) => {
                return Err(err);
            },
        };
        if matches!(&self.token_atual, Token::Igual) {
            self.avancar();
            let valor = match self.parse_atribuicao() {
                Ok(e) => e,
                Err(err) => {
                    return Err(err);
                },
            };
            let alvo_permitido = match &expr_esquerda {
                Expr::Variavel(_) => true,
                Expr::AcessoArray { .. } => true,
                Expr::Unario { .. } => true,
                _ => false,
            };
            if alvo_permitido {
                return Ok(
                    Expr::Atribuicao { alvo: Box::new(expr_esquerda), valor: Box::new(valor) },
                );
            }
            return Err(self.erro("alvo valido para atribuicao"));
        }
        let eh_composta = match &self.token_atual {
            Token::SomaIgual => true,
            Token::SubtracaoIgual => true,
            Token::MultiplicacaoIgual => true,
            Token::DivisaoIgual => true,
            Token::ModuloIgual => true,
            _ => false,
        };
        if eh_composta {
            let operador = self.token_atual.clone();
            self.avancar();
            let valor = match self.parse_atribuicao() {
                Ok(e) => e,
                Err(err) => {
                    return Err(err);
                },
            };
            let alvo_permitido = match &expr_esquerda {
                Expr::Variavel(_) => true,
                Expr::AcessoArray { .. } => true,
                Expr::Unario { .. } => true,
                _ => false,
            };
            if alvo_permitido {
                return Ok(
                    Expr::AtribuicaoComposta {
                        alvo: Box::new(expr_esquerda),
                        operador,
                        valor: Box::new(valor),
                    },
                );
            }
            return Err(self.erro("alvo valido para atribuicao composta"));
        }
        Ok(expr_esquerda)
    }

    /// An expression statement: one assignment-level expression followed by a
    /// mandatory `;`.
    pub fn parse_declaracao_expressao(&mut self) -> (r: Result<Stmt, ErroParse>)
        requires
            old(self).bem_formado(),
        ensures
            final(self).bem_formado(),
            final(self).tokens_spec() == old(self).tokens_spec(),
            final(self).medida() <= old(self).medida(),
            r matches Ok(s) ==> stmt_bem_formado(s) && final(self).medida() < old(self).medida(),
            r matches Err(err) ==> err.linha as int == final(self).linha_spec() && err.encontrado
                == final(self).token_spec(),
            ({
                let ts = old(self).tokens_spec();
                let p = old(self).posicao_spec();
                let t0 = old(self).token_spec();
                expr_atomo(t0) matches Some(ea) ==> (((t0 is Identificador ==> !(token_em(
                    ts,
                    p + 1,
                ) is AbreParentesis)) && token_em(ts, p + 1) is PontoVirgula) ==> (r matches Ok(s)
                    && s == Stmt::Expressao(ea) && final(self).avancou(ts, p + 2)))
            }),
            ({
                let ts = old(self).tokens_spec();
                let p = old(self).posicao_spec();
                let t0 = old(self).token_spec();
                expr_atomo(t0) matches Some(ea) ==> (((t0 is Identificador ==> !(token_em(
                    ts,
                    p + 1,
                ) is AbreParentesis)) && para_atribuicao(token_em(ts, p + 1)) && !(token_em(
                    ts,
                    p + 1,
                ) is PontoVirgula)) ==> ((r matches Err(err) && err.esperado@
                    == "';' depois da expressao"@) && final(self).avancou(ts, p + 1)))
            }),
            ({
                let ts = old(self).tokens_spec();
                let p = old(self).posicao_spec();
                let t0 = old(self).token_spec();
                expr_atomo(t0) matches Some(a0) ==> (expr_atomo(token_em(ts, p + 2)) matches Some(
                    a2,
                ) ==> (operador_binario(token_em(ts, p + 1)) matches Some(op) ==> ((
                !para_atribuicao(token_em(ts, p + 1)) && (token_em(ts, p + 2) is Identificador
                    ==> !(token_em(ts, p + 3) is AbreParentesis)) && token_em(
                    ts,
                    p + 3,
                ) is PontoVirgula) ==> ((r matches Ok(s) && s == Stmt::Expressao(
                    binario_de(a0, op, a2),
                )) && final(self).avancou(ts, p + 4)))))
            }),
            ({
                let ts = old(self).tokens_spec();
                let p = old(self).posicao_spec();
                let t0 = old(self).token_spec();
                expr_atomo(t0) matches Some(a0) ==> (expr_atomo(token_em(ts, p + 2)) matches Some(
                    a2,
                ) ==> (expr_atomo(token_em(ts, p + 4)) matches Some(a4) ==> (operador_binario(
                    token_em(ts, p + 1),
                ) matches Some(op1) ==> (operador_binario(token_em(ts, p + 3)) matches Some(
                    op2,
                ) ==> ((!para_atribuicao(token_em(ts, p + 1)) && nivel_operador(
                    token_em(ts, p + 3),
                ) < nivel_operador(token_em(ts, p + 1)) && (token_em(ts, p + 2) is Identificador
                    ==> !(token_em(ts, p + 3) is AbreParentesis)) && (token_em(
                    ts,
                    p + 4,
                ) is Identificador ==> !(token_em(ts, p + 5) is AbreParentesis)) && token_em(
                    ts,
                    p + 5,
                ) is PontoVirgula) ==> ((r matches Ok(s) && s == Stmt::Expressao(
                    binario_de(a0, op1, binario_de(a2, op2, a4)),
                )) && final(self).avancou(ts, p + 6)))))))
            }),
            ({
                let ts = old(self).tokens_spec();
                let p = old(self).posicao_spec();
                let t0 = old(self).token_spec();
                expr_atomo(token_em(ts, p + 2)) matches Some(a2) ==> ((t0 is Identificador
                    && token_em(ts, p + 1) is Igual && (token_em(ts, p + 2) is Identificador
                    ==> !(token_em(ts, p + 3) is AbreParentesis)) && token_em(
                    ts,
                    p + 3,
                ) is PontoVirgula) ==> ((r matches Ok(s) && s == Stmt::Expressao(
                    Expr::Atribuicao { alvo: Box::new(Expr::Variavel(t0)), valor: Box::new(a2) },
                )) && final(self).avancou(ts, p + 4)))
            }),
            ({
                let ts = old(self).tokens_spec();
                let p = old(self).posicao_spec();
                let t0 = old(self).token_spec();
                forma_operando(ts, p) matches Some(par0) ==> (forma_operando(
                    ts,
                    p + par0.1 + 1,
                ) matches Some(par1) ==> (operador_binario(token_em(ts, p + par0.1)) matches Some(
                    op,
                ) ==> ((t0 == token_em(ts, p) && !para_atribuicao(token_em(ts, p + par0.1))
                    && token_em(ts, p + par0.1 + 1 + par1.1) is PontoVirgula) ==> ((r matches Ok(s) && s == Stmt::Expressao(binario_de(par0.0, op, par1.0))) && final(self).avancou(
                    ts,
                    p + par0.1 + 2 + par1.1,
                )))))
            }),
        decreases old(self).medida(), 11int,
    {
        let expr = match self.parse_atribuicao() {
            Ok(e) => e,
            Err(err) => {
                return Err(err);
            },
        };
        if !matches!(&self.token_atual, Token::PontoVirgula) {
            return Err(self.erro("';' depois da expressao"));
        }
        self.avancar();
        Ok(Stmt::Expressao(expr))
    }

    /// An include statement, from the include token the lexer built: the path
    /// text and the flag telling the angle-bracket form from the quoted one.
    pub fn parse_diretiva_inclusao(&mut self) -> (r: Result<Stmt, ErroParse>)
        requires
            old(self).bem_formado(),
            old(self).token_spec() is InclusaoGlobal || old(self).token_spec() is InclusaoLocal,
        ensures
            final(self).bem_formado(),
            final(self).tokens_spec() == old(self).tokens_spec(),
            final(self).medida() <= old(self).medida(),
            r matches Ok(s) ==> stmt_bem_formado(s) && final(self).medida() < old(self).medida(),
            ({
                let ts = old(self).tokens_spec();
                let p = old(self).posicao_spec();
                let t0 = old(self).token_spec();
                &&& (t0 matches Token::InclusaoGlobal(path) ==> (r matches Ok(s) && s
                    == Stmt::Inclusao { path, is_global: true } && final(self).avancou(ts, p + 1)))
                &&& (t0 matches Token::InclusaoLocal(path) ==> (r matches Ok(s) && s
                    == Stmt::Inclusao { path, is_global: false } && final(self).avancou(
                    ts,
                    p + 1,
                )))
            }),
        decreases old(self).medida(), 11int,
    {
        let token_clonado = self.token_atual.clone();
        self.avancar();
        match token_clonado {
            Token::InclusaoGlobal(path) => Ok(Stmt::Inclusao { path, is_global: true }),
            Token::InclusaoLocal(path) => Ok(Stmt::Inclusao { path, is_global: false }),
            _ => Err(self.erro("diretiva de inclusao")),
        }
    }

    /// A generic directive statement: only the command text survives — the
    /// rest of the directive line was already discarded by the lexer.
    pub fn parse_diretiva_outra(&mut self) -> (r: Result<Stmt, ErroParse>)
        requires
            old(self).bem_formado(),
            old(self).token_spec() is Diretiva,
        ensures
            final(self).bem_formado(),
            final(self).tokens_spec() == old(self).tokens_spec(),
            final(self).medida() <= old(self).medida(),
            r matches Ok(s) ==> stmt_bem_formado(s) && final(self).medida() < old(self).medida(),
            ({
                let ts = old(self).tokens_spec();
                let p = old(self).posicao_spec();
                old(self).token_spec() matches Token::Diretiva(comando) ==> (r matches Ok(s) && s
                    == Stmt::Diretiva(comando) && final(self).avancou(ts, p + 1))
            }),
        decreases old(self).medida(), 11int,
    {
        let token_clonado = self.token_atual.clone();
        self.avancar();
        match token_clonado {
            Token::Diretiva(comando) => Ok(Stmt::Diretiva(comando)),
            _ => Err(self.erro("diretiva")),
        }
    }

    /// A block: `{`, then statements with bare newline tokens skipped, until
    /// the closing `}`; a missing `}` is fatal.
    pub fn parse_bloco(&mut self) -> (r: Result<Stmt, ErroParse>)
        requires
            old(self).bem_formado(),
        ensures
            final(self).bem_formado(),
            final(self).tokens_spec() == old(self).tokens_spec(),
            final(self).medida() <= old(self).medida(),
            r matches Ok(s) ==> stmt_bem_formado(s) && final(self).medida() < old(self).medida(),
            r matches Err(err) ==> err.linha as int == final(self).linha_spec() && err.encontrado
                == final(self).token_spec(),
            !(old(self).token_spec() is AbreChave) ==> r is Err,
            ({
                let ts = old(self).tokens_spec();
                let p = old(self).posicao_spec();
                (old(self).token_spec() is AbreChave && token_em(ts, p + 1) is FechaChave) ==> (
                r matches Ok(s) && (s matches Stmt::Bloco { declaracoes } && declaracoes@.len()
                    == 0) && final(self).avancou(ts, p + 2))
            }),
            ({
                let ts = old(self).tokens_spec();
                let p = old(self).posicao_spec();
                (old(self).token_spec() is AbreChave && token_em(ts, p + 1) is Fundo) ==> r is Err
            }),
            ({
                let ts = old(self).tokens_spec();
                let p = old(self).posicao_spec();
                expr_atomo(token_em(ts, p + 1)) matches Some(a1) ==> ((old(self).token_spec() is AbreChave && (token_em(ts, p + 1) matches Token::Identificador(
                    nm,
                ) ==> (nm@ != "if"@ && nm@ != "return"@ && nm@ != "using"@ && !(token_em(
                    ts,
                    p + 2,
                ) is AbreParentesis))) && token_em(ts, p + 2) is PontoVirgula && token_em(
                    ts,
                    p + 3,
                ) is FechaChave) ==> (r matches Ok(s) && (s matches Stmt::Bloco { declaracoes }
                    && declaracoes@.len() == 1 && declaracoes@[0] == Stmt::Expressao(a1)) && final(self).avancou(ts, p + 4)))
            }),
            ({
                let ts = old(self).tokens_spec();
                let p = old(self).posicao_spec();
                (old(self).token_spec() is AbreChave && forma_retorno_binario(ts, p + 1)
                    && token_em(ts, p + 6) is FechaChave) ==> (r matches Ok(s) && (s matches
                Stmt::Bloco { declaracoes } && declaracoes@.len() == 1 && declaracoes@[0]
                    == retorno_binario(ts, p + 1)) && final(self).avancou(ts, p + 7))
            }),
            ({
                let ts = old(self).tokens_spec();
                let p = old(self).posicao_spec();
                (old(self).token_spec() is AbreChave && forma_expressao_atomica(ts, p + 1)
                    && forma_expressao_atomica(ts, p + 3) && token_em(ts, p + 5) is FechaChave)
                    ==> (r matches Ok(s) && (s matches Stmt::Bloco { declaracoes }
                    && declaracoes@.len() == 2 && declaracoes@[0] == Stmt::Expressao(
                    atomo_de(token_em(ts, p + 1)),
                ) && declaracoes@[1] == Stmt::Expressao(atomo_de(token_em(ts, p + 3)))) && final(self).avancou(ts, p + 6))
            }),
            ({
                let ts = old(self).tokens_spec();
                let p = old(self).posicao_spec();
                (old(self).token_spec() is AbreChave && forma_expressao_atomica(ts, p + 1)
                    && token_em(ts, p + 3) is Fundo) ==> r is Err
            }),
        decreases old(self).medida(), 11int,
    {
        let ghost ts = self.tokens_spec();
        let ghost p = self.posicao_spec();
        let ghost m0 = self.medida();
        if !matches!(&self.token_atual, Token::AbreChave) {
            return Err(self.erro("'{' para iniciar o bloco"));
        }
        self.avancar();
        let mut declaracoes: Vec<Stmt> = Vec::new();
        loop
            invariant
                ts == old(self).tokens_spec(),
                p == old(self).posicao_spec(),
                m0 == old(self).medida(),
                old(self).token_spec() is AbreChave,
                self.bem_formado(),
                self.tokens_spec() == ts,
                self.medida() < m0,
                forall|i: int|
                    0 <= i < declaracoes@.len() ==> stmt_bem_formado(#[trigger] declaracoes@[i]),
                token_em(ts, p + 1) is FechaChave ==> (self.avancou(ts, p + 1)
                    && declaracoes@.len() == 0),
                token_em(ts, p + 1) is Fundo ==> (self.avancou(ts, p + 1) && declaracoes@.len()
                    == 0),
                expr_atomo(token_em(ts, p + 1)) matches Some(a1) ==> (((token_em(
                    ts,
                    p + 1,
                ) matches Token::Identificador(nm) ==> (nm@ != "if"@ && nm@ != "return"@ && nm@
                    != "using"@ && !(token_em(ts, p + 2) is AbreParentesis))) && token_em(
                    ts,
                    p + 2,
                ) is PontoVirgula && token_em(ts, p + 3) is FechaChave) ==> ((self.avancou(
                    ts,
                    p + 1,
                ) && declaracoes@.len() == 0) || (self.avancou(ts, p + 3) && declaracoes@.len()
                    == 1 && declaracoes@[0] == Stmt::Expressao(a1)))),
                (forma_retorno_binario(ts, p + 1) && token_em(ts, p + 6) is FechaChave) ==> ((
                self.avancou(ts, p + 1) && declaracoes@.len() == 0) || (self.avancou(ts, p + 6)
                    && declaracoes@.len() == 1 && declaracoes@[0] == retorno_binario(ts, p + 1))),
                (forma_expressao_atomica(ts, p + 1) && forma_expressao_atomica(ts, p + 3)
                    && token_em(ts, p + 5) is FechaChave) ==> ((self.avancou(ts, p + 1)
                    && declaracoes@.len() == 0) || (self.avancou(ts, p + 3) && declaracoes@.len()
                    == 1 && declaracoes@[0] == Stmt::Expressao(atomo_de(token_em(ts, p + 1)))) || (
                self.avancou(ts, p + 5) && declaracoes@.len() == 2 && declaracoes@[0]
                    == Stmt::Expressao(atomo_de(token_em(ts, p + 1))) && declaracoes@[1]
                    == Stmt::Expressao(atomo_de(token_em(ts, p + 3))))),
                (forma_expressao_atomica(ts, p + 1) && token_em(ts, p + 3) is Fundo) ==> ((
                self.avancou(ts, p + 1) && declaracoes@.len() == 0) || self.avancou(ts, p + 3)),
            ensures
                self.bem_formado(),
                self.tokens_spec() == ts,
                self.medida() < m0,
                self.token_spec() is FechaChave || self.token_spec() is Fundo,
                forall|i: int|
                    0 <= i < declaracoes@.len() ==> stmt_bem_formado(#[trigger] declaracoes@[i]),
                token_em(ts, p + 1) is FechaChave ==> (self.avancou(ts, p + 1)
                    && declaracoes@.len() == 0),
                token_em(ts, p + 1) is Fundo ==> (self.avancou(ts, p + 1) && declaracoes@.len()
                    == 0),
                expr_atomo(token_em(ts, p + 1)) matches Some(a1) ==> (((token_em(
                    ts,
                    p + 1,
                ) matches Token::Identificador(nm) ==> (nm@ != "if"@ && nm@ != "return"@ && nm@
                    != "using"@ && !(token_em(ts, p + 2) is AbreParentesis))) && token_em(
                    ts,
                    p + 2,
                ) is PontoVirgula && token_em(ts, p + 3) is FechaChave) ==> (self.avancou(
                    ts,
                    p + 3,
                ) && declaracoes@.len() == 1 && declaracoes@[0] == Stmt::Expressao(a1))),
                (forma_retorno_binario(ts, p + 1) && token_em(ts, p + 6) is FechaChave) ==> (
                self.avancou(ts, p + 6) && declaracoes@.len() == 1 && declaracoes@[0]
                    == retorno_binario(ts, p + 1)),
                (forma_expressao_atomica(ts, p + 1) && forma_expressao_atomica(ts, p + 3)
                    && token_em(ts, p + 5) is FechaChave) ==> (self.avancou(ts, p + 5)
                    && declaracoes@.len() == 2 && declaracoes@[0] == Stmt::Expressao(
                    atomo_de(token_em(ts, p + 1)),
                ) && declaracoes@[1] == Stmt::Expressao(atomo_de(token_em(ts, p + 3)))),
                (forma_expressao_atomica(ts, p + 1) && token_em(ts, p + 3) is Fundo)
                    ==> self.avancou(ts, p + 3),
            decreases self.medida(),
        {
            if matches!(&self.token_atual, Token::FechaChave) || matches!(
                &self.token_atual,
                Token::Fundo,
            ) {
                break ;
            }
            if matches!(&self.token_atual, Token::QuebraLinha) {
                self.avancar();
                continue ;
            }
            let declaracao = match self.parse_declaracao() {
                Ok(s) => s,
                Err(err) => {
                    return Err(err);
                },
            };
            declaracoes.push(declaracao);
        }
        if !matches!(&self.token_atual, Token::FechaChave) {
            return Err(self.erro("'}' para fechar o bloco"));
        }
        self.avancar();
        Ok(Stmt::Bloco { declaracoes })
    }

    /// An if statement: `(`, an assignment-level condition, `)`, exactly one
    /// statement as the then branch, then optionally an `else` keyword and
    /// either another if statement (else-if chaining) or one statement as the
    /// else branch.
    pub fn parse_declaracao_if(&mut self) -> (r: Result<Stmt, ErroParse>)
        requires
            old(self).bem_formado(),
            !(old(self).token_spec() is Fundo),
        ensures
            final(self).bem_formado(),
            final(self).tokens_spec() == old(self).tokens_spec(),
            final(self).medida() <= old(self).medida(),
            r matches Ok(s) ==> stmt_bem_formado(s) && final(self).medida() < old(self).medida(),
            r matches Err(err) ==> err.linha as int == final(self).linha_spec() && err.encontrado
                == final(self).token_spec(),
            !(token_em(old(self).tokens_spec(), old(self).posicao_spec() + 1) is AbreParentesis)
                ==> r is Err,
            ({
                let ts = old(self).tokens_spec();
                let p = old(self).posicao_spec();
                token_em(ts, p + 1) is AbreParentesis ==> (expr_atomo(token_em(ts, p + 2)) matches
                Some(cond) ==> (((token_em(ts, p + 2) is Identificador ==> !(token_em(
                    ts,
                    p + 3,
                ) is AbreParentesis)) && token_em(ts, p + 3) is FechaParentesis) ==> (expr_atomo(
                    token_em(ts, p + 4),
                ) matches Some(entao) ==> ((token_em(ts, p + 5) is PontoVirgula && (token_em(
                    ts,
                    p + 4,
                ) matches Token::Identificador(nm) ==> (nm@ != "if"@ && nm@ != "return"@ && nm@
                    != "using"@)) && (token_em(ts, p + 6) matches Token::Identificador(e) ==> e@
                    != "else"@)) ==> (r matches Ok(s) && (s matches Stmt::If {
                    condicao,
                    bloco_then,
                    bloco_else,
                } && condicao == cond && *bloco_then == Stmt::Expressao(entao)
                    && bloco_else is None) && final(self).avancou(ts, p + 6))))))
            }),
            ({
                let ts = old(self).tokens_spec();
                let p = old(self).posicao_spec();
                forma_if_simples(ts, p) ==> (forma_else_expressao(ts, p + 6) ==> (r matches Ok(s)
                    && (s matches Stmt::If { condicao, bloco_then, bloco_else } && condicao
                    == atomo_de(token_em(ts, p + 2)) && *bloco_then == Stmt::Expressao(
                    atomo_de(token_em(ts, p + 4)),
                ) && bloco_else == Some(
                    Box::new(Stmt::Expressao(atomo_de(token_em(ts, p + 7)))),
                )) && final(self).avancou(ts, p + 9)))
            }),
            ({
                let ts = old(self).tokens_spec();
                let p = old(self).posicao_spec();
                forma_if_simples(ts, p) ==> (forma_else_if(ts, p + 6) ==> (forma_else_expressao(
                    ts,
                    p + 13,
                ) ==> (r matches Ok(s) && (s matches Stmt::If { condicao, bloco_then, bloco_else }
                    && condicao == atomo_de(token_em(ts, p + 2)) && *bloco_then
                    == Stmt::Expressao(atomo_de(token_em(ts, p + 4))) && bloco_else == Some(
                    Box::new(
                        Stmt::If {
                            condicao: atomo_de(token_em(ts, p + 9)),
                            bloco_then: Box::new(
                                Stmt::Expressao(atomo_de(token_em(ts, p + 11))),
                            ),
                            bloco_else: Some(
                                Box::new(Stmt::Expressao(atomo_de(token_em(ts, p + 14)))),
                            ),
                        },
                    ),
                )) && final(self).avancou(ts, p + 16))))
            }),
        decreases old(self).medida(), 11int,
    {
        self.avancar();
        if !matches!(&self.token_atual, Token::AbreParentesis) {
            return Err(self.erro("'(' depois de 'if'"));
        }
        self.avancar();
        let condicao = match self.parse_atribuicao() {
            Ok(e) => e,
            Err(err) => {
                return Err(err);
            },
        };
        if !matches!(&self.token_atual, Token::FechaParentesis) {
            return Err(self.erro("')' depois da condicao do 'if'"));
        }
        self.avancar();
        let bloco_then = match self.parse_declaracao() {
            Ok(s) => s,
            Err(err) => {
                return Err(err);
            },
        };
        let mut bloco_else: Option<Box<Stmt>> = None;
        let atual = self.token_atual.clone();
        if let Token::Identificador(nome) = &atual {
            if texto_igual(nome, "else") {
                self.avancar();
                let proximo = self.token_atual.clone();
                let mut else_if = false;
                if let Token::Identificador(nome_seguinte) = &proximo {
                    if texto_igual(nome_seguinte, "if") {
                        else_if = true;
                    }
                }
                if else_if {
                    let aninhado = match self.parse_declaracao_if() {
                        Ok(s) => s,
                        Err(err) => {
                            return Err(err);
                        },
                    };
                    bloco_else = Some(Box::new(aninhado));
                } else {
                    let alternativo = match self.parse_declaracao() {
                        Ok(s) => s,
                        Err(err) => {
                            return Err(err);
                        },
                    };
                    bloco_else = Some(Box::new(alternativo));
                }
            }
        }
        Ok(Stmt::If { condicao, bloco_then: Box::new(bloco_then), bloco_else })
    }

    /// A function declaration: return-type tokens accumulate until an
    /// identifier directly followed by `(` names the function; then a
    /// parenthesized, comma-separated parameter list — each parameter
    /// accumulating its own type tokens until an identifier followed by `,`,
    /// `)` or `[` names it, with an optional array suffix — and a mandatory
    /// block body.
    pub fn parse_declaracao_funcao(&mut self) -> (r: Result<Stmt, ErroParse>)
        requires
            old(self).bem_formado(),
        ensures
            final(self).bem_formado(),
            final(self).tokens_spec() == old(self).tokens_spec(),
            final(self).medida() <= old(self).medida(),
            r matches Ok(s) ==> stmt_bem_formado(s) && final(self).medida() < old(self).medida(),
            r matches Err(err) ==> err.linha as int == final(self).linha_spec() && err.encontrado
                == final(self).token_spec(),
            ({
                let ts = old(self).tokens_spec();
                let p = old(self).posicao_spec();
                let t0 = old(self).token_spec();
                ((t0 is Identificador && forma_cabecalho_funcao(ts, p)) && token_em(ts, p + 3) is FechaParentesis
                    && token_em(ts, p + 4) is AbreChave && token_em(ts, p + 5) is FechaChave)
                    ==> (r matches Ok(s) && (s matches Stmt::DeclaracaoFuncao {
                    tipo_retorno,
                    nome,
                    parametros,
                    corpo,
                } && tipo_retorno@ =~= seq![t0] && nome == token_em(ts, p + 1)
                    && parametros@.len() == 0 && (*corpo matches Stmt::Bloco { declaracoes }
                    && declaracoes@.len() == 0)) && final(self).avancou(ts, p + 6))
            }),
            ({
                let ts = old(self).tokens_spec();
                let p = old(self).posicao_spec();
                let t0 = old(self).token_spec();
                forma_parametro(ts, p + 3) matches Some(w) ==> (((t0 is Identificador && forma_cabecalho_funcao(ts, p))
                    && token_em(ts, p + 3 + w) is FechaParentesis && token_em(
                    ts,
                    p + 4 + w,
                ) is AbreChave && token_em(ts, p + 5 + w) is FechaChave) ==> (r matches Ok(s) && (
                s matches Stmt::DeclaracaoFuncao { tipo_retorno, nome, parametros, corpo }
                    && tipo_retorno@ =~= seq![t0] && nome == token_em(ts, p + 1)
                    && parametros@.len() == 1 && parametro_confere(parametros@[0], ts, p + 3) && (
                *corpo matches Stmt::Bloco { declaracoes } && declaracoes@.len() == 0)) && final(self).avancou(ts, p + 6 + w)))
            }),
            ({
                let ts = old(self).tokens_spec();
                let p = old(self).posicao_spec();
                let t0 = old(self).token_spec();
                forma_parametro(ts, p + 3) matches Some(w1) ==> (forma_parametro(
                    ts,
                    p + 4 + w1,
                ) matches Some(w2) ==> (((t0 is Identificador && forma_cabecalho_funcao(ts, p)) && token_em(
                    ts,
                    p + 3 + w1,
                ) is Virgula && token_em(ts, p + 4 + w1 + w2) is FechaParentesis && token_em(
                    ts,
                    p + 5 + w1 + w2,
                ) is AbreChave && token_em(ts, p + 6 + w1 + w2) is FechaChave) ==> (r matches Ok(s) && (s matches Stmt::DeclaracaoFuncao { tipo_retorno, nome, parametros, corpo }
                    && tipo_retorno@ =~= seq![t0] && nome == token_em(ts, p + 1)
                    && parametros@.len() == 2 && parametro_confere(parametros@[0], ts, p + 3)
                    && parametro_confere(parametros@[1], ts, p + 4 + w1) && (
                *corpo matches Stmt::Bloco { declaracoes } && declaracoes@.len() == 0)) && final(self).avancou(ts, p + 7 + w1 + w2))))
            }),
            ({
                let ts = old(self).tokens_spec();
                let p = old(self).posicao_spec();
                let t0 = old(self).token_spec();
                forma_parametro(ts, p + 3) matches Some(w1) ==> (forma_parametro(
                    ts,
                    p + 4 + w1,
                ) matches Some(w2) ==> (((t0 is Identificador && forma_cabecalho_funcao(ts, p))
                    && token_em(ts, p + 3 + w1) is Virgula && token_em(
                    ts,
                    p + 4 + w1 + w2,
                ) is FechaParentesis && token_em(ts, p + 5 + w1 + w2) is AbreChave
                    && forma_retorno_binario(ts, p + 6 + w1 + w2) && token_em(
                    ts,
                    p + 11 + w1 + w2,
                ) is FechaChave) ==> (r matches Ok(s) && (s matches Stmt::DeclaracaoFuncao {
                    tipo_retorno,
                    nome,
                    parametros,
                    corpo,
                } && tipo_retorno@ =~= seq![t0] && nome == token_em(ts, p + 1)
                    && parametros@.len() == 2 && parametro_confere(parametros@[0], ts, p + 3)
                    && parametro_confere(parametros@[1], ts, p + 4 + w1) && (
                *corpo matches Stmt::Bloco { declaracoes } && declaracoes@.len() == 1
                    && declaracoes@[0] == retorno_binario(ts, p + 6 + w1 + w2))) && final(self).avancou(ts, p + 12 + w1 + w2))))
            }),
            ({
                let ts = old(self).tokens_spec();
                let p = old(self).posicao_spec();
                let t0 = old(self).token_spec();
                ((t0 is Identificador && forma_cabecalho_funcao(ts, p)) && token_em(ts, p + 3) is FechaParentesis
                    && token_em(ts, p + 4) is AbreChave && forma_expressao_atomica(ts, p + 5)
                    && token_em(ts, p + 7) is FechaChave) ==> (r matches Ok(s) && (s matches
                Stmt::DeclaracaoFuncao { tipo_retorno, nome, parametros, corpo } && tipo_retorno@
                    =~= seq![t0] && nome == token_em(ts, p + 1) && parametros@.len() == 0 && (
                *corpo matches Stmt::Bloco { declaracoes } && declaracoes@.len() == 1
                    && declaracoes@[0] == Stmt::Expressao(atomo_de(token_em(ts, p + 5))))) && final(self).avancou(ts, p + 8))
            }),
            ({
                let ts = old(self).tokens_spec();
                let p = old(self).posicao_spec();
                let t0 = old(self).token_spec();
                ((t0 is Identificador && forma_cabecalho_funcao(ts, p)) && token_em(
                    ts,
                    p + 3,
                ) is FechaParentesis && !(token_em(ts, p + 4) is AbreChave) && !(token_em(
                    ts,
                    p + 4,
                ) is QuebraLinha)) ==> r is Err
            }),
        decreases old(self).medida(), 11int,
    {
        let ghost ts = self.tokens_spec();
        let ghost p = self.posicao_spec();
        let ghost t0 = self.token_spec();
        let ghost m0 = self.medida();
        let mut tipo_retorno: Vec<Token> = Vec::new();
        proof {
            if (t0 is Identificador && forma_cabecalho_funcao(ts, p)) {
                assert(self.avancou(ts, p));
            }
        }
        loop
            invariant
                old(self).bem_formado(),
                ts == old(self).tokens_spec(),
                p == old(self).posicao_spec(),
                t0 == old(self).token_spec(),
                m0 == old(self).medida(),
                self.bem_formado(),
                self.tokens_spec() == ts,
                self.medida() <= m0,
                (t0 is Identificador && forma_cabecalho_funcao(ts, p)) ==> ((self.avancou(ts, p) && tipo_retorno@
                    =~= Seq::<Token>::empty()) || (self.avancou(ts, p + 1) && tipo_retorno@
                    =~= seq![t0])),
            ensures
                self.bem_formado(),
                self.tokens_spec() == ts,
                self.medida() <= m0,
                self.token_spec() is Fundo || (self.token_spec() is Identificador && token_em(
                    ts,
                    self.posicao_spec() + 1,
                ) is AbreParentesis),
                (t0 is Identificador && forma_cabecalho_funcao(ts, p)) ==> (self.avancou(ts, p + 1) && tipo_retorno@
                    =~= seq![t0]),
            decreases self.medida(),
        {
            if matches!(&self.token_atual, Token::Fundo) {
                break ;
            }
            if matches!(&self.token_atual, Token::Identificador(_)) && matches!(
                self.espiadinha(),
                Token::AbreParentesis,
            ) {
                break ;
            }
            tipo_retorno.push(self.token_atual.clone());
            self.avancar();
        }
        if !matches!(&self.token_atual, Token::Identificador(_)) {
            return Err(self.erro("nome da funcao depois do tipo de retorno"));
        }
        let nome = self.token_atual.clone();
        self.avancar();
        if !matches!(&self.token_atual, Token::AbreParentesis) {
            return Err(self.erro("'(' depois do nome da funcao"));
        }
        self.avancar();
        let ghost m1 = self.medida();
        let mut parametros: Vec<Parametro> = Vec::new();
        if !matches!(&self.token_atual, Token::FechaParentesis) {
            loop
                invariant_except_break
                    forma_parametro(ts, p + 3) matches Some(w) ==> (((t0 is Identificador && forma_cabecalho_funcao(ts, p))
                        && token_em(ts, p + 3 + w) is FechaParentesis) ==> (self.avancou(ts, p + 3)
                        && parametros@.len() == 0)),
                    forma_parametro(ts, p + 3) matches Some(w1) ==> (forma_parametro(
                        ts,
                        p + 4 + w1,
                    ) matches Some(w2) ==> (((t0 is Identificador && forma_cabecalho_funcao(ts, p)) && token_em(
                        ts,
                        p + 3 + w1,
                    ) is Virgula && token_em(ts, p + 4 + w1 + w2) is FechaParentesis) ==> ((
                    self.avancou(ts, p + 3) && parametros@.len() == 0) || (self.avancou(
                        ts,
                        p + 4 + w1,
                    ) && parametros@.len() == 1 && parametro_confere(parametros@[0], ts, p + 3))))),
                invariant
                    ts == old(self).tokens_spec(),
                    p == old(self).posicao_spec(),
                    t0 == old(self).token_spec(),
                    m0 == old(self).medida(),
                    m1 < m0,
                    (t0 is Identificador && forma_cabecalho_funcao(ts, p)) ==> !(token_em(ts, p + 3) is FechaParentesis),
                    self.bem_formado(),
                    self.tokens_spec() == ts,
                    self.medida() <= m1,
                    forall|i: int|
                        0 <= i < parametros@.len() ==> opt_expr_bem_formada(
                            (#[trigger] parametros@[i]).tamanho_array,
                        ),
                ensures
                    self.bem_formado(),
                    self.tokens_spec() == ts,
                    self.medida() < m0,
                    self.token_spec() is FechaParentesis,
                    forall|i: int|
                        0 <= i < parametros@.len() ==> opt_expr_bem_formada(
                            (#[trigger] parametros@[i]).tamanho_array,
                        ),
                    forma_parametro(ts, p + 3) matches Some(w) ==> (((t0 is Identificador && forma_cabecalho_funcao(ts, p))
                        && token_em(ts, p + 3 + w) is FechaParentesis) ==> (self.avancou(
                        ts,
                        p + 3 + w,
                    ) && parametros@.len() == 1 && parametro_confere(parametros@[0], ts, p + 3))),
                    forma_parametro(ts, p + 3) matches Some(w1) ==> (forma_parametro(
                        ts,
                        p + 4 + w1,
                    ) matches Some(w2) ==> (((t0 is Identificador && forma_cabecalho_funcao(ts, p)) && token_em(
                        ts,
                        p + 3 + w1,
                    ) is Virgula && token_em(ts, p + 4 + w1 + w2) is FechaParentesis) ==> (
                    self.avancou(ts, p + 4 + w1 + w2) && parametros@.len() == 2
                        && parametro_confere(parametros@[0], ts, p + 3) && parametro_confere(
                        parametros@[1],
                        ts,
                        p + 4 + w1,
                    )))),
                decreases self.medida(),
            {
                let ghost mh = self.medida();
                let ghost q = self.posicao_spec();
                let ghost tq = self.token_spec();
                let mut tipo_param: Vec<Token> = Vec::new();
                let mut tamanho_array: Option<Expr> = None;
                loop
                    invariant
                        ts == old(self).tokens_spec(),
                        self.bem_formado(),
                        self.tokens_spec() == ts,
                        self.medida() <= mh,
                        mh <= m1,
                        m1 < m0,
                        m0 == old(self).medida(),
                        forma_parametro(ts, q) matches Some(w) ==> (tq is Identificador ==> ((
                        self.avancou(ts, q) && tipo_param@ =~= Seq::<Token>::empty()) || (
                        self.avancou(ts, q + 1) && tipo_param@ =~= seq![token_em(ts, q)]))),
                    ensures
                        self.bem_formado(),
                        self.tokens_spec() == ts,
                        self.medida() <= mh,
                        forma_parametro(ts, q) matches Some(w) ==> (tq is Identificador ==> (
                        self.avancou(ts, q + 1) && tipo_param@ =~= seq![token_em(ts, q)])),
                        self.token_spec() is Fundo || (self.token_spec() is Identificador && (
                        token_em(ts, self.posicao_spec() + 1) is Virgula || token_em(
                            ts,
                            self.posicao_spec() + 1,
                        ) is FechaParentesis || token_em(
                            ts,
                            self.posicao_spec() + 1,
                        ) is AbreColchete)),
                    decreases self.medida(),
                {
                    if matches!(&self.token_atual, Token::Fundo) {
                        break ;
                    }
                    if matches!(&self.token_atual, Token::Identificador(_)) {
                        let seguinte = self.espiadinha();
                        if matches!(seguinte, Token::Virgula) || matches!(
                            seguinte,
                            Token::FechaParentesis,
                        ) || matches!(seguinte, Token::AbreColchete) {
                            break ;
                        }
                    }
                    tipo_param.push(self.token_atual.clone());
                    self.avancar();
                }
                if !matches!(&self.token_atual, Token::Identificador(_)) {
                    return Err(self.erro("nome do parametro na declaracao da funcao"));
                }
                let nome_param = self.token_atual.clone();
                self.avancar();
                if matches!(&self.token_atual, Token::AbreColchete) {
                    self.avancar();
                    if matches!(&self.token_atual, Token::FechaColchete) {
                        tamanho_array = Some(Expr::ArrayDim);
                    } else {
                        let tamanho = match self.parse_atribuicao() {
                            Ok(e) => e,
                            Err(err) => {
                                return Err(err);
                            },
                        };
                        tamanho_array = Some(tamanho);
                    }
                    if !matches!(&self.token_atual, Token::FechaColchete) {
                        return Err(self.erro("']' em parametro de array"));
                    }
                    self.avancar();
                }
                parametros.push(Parametro { tipo: tipo_param, nome: nome_param, tamanho_array });
                if matches!(&self.token_atual, Token::Virgula) {
                    self.avancar();
                    continue ;
                }
                if matches!(&self.token_atual, Token::FechaParentesis) {
                    break ;
                }
                return Err(self.erro("',' ou ')' depois do parametro da funcao"));
            }
        }
        if !matches!(&self.token_atual, Token::FechaParentesis) {
            return Err(self.erro("')' depois dos parametros da funcao"));
        }
        self.avancar();
        loop
            invariant
                ts == old(self).tokens_spec(),
                p == old(self).posicao_spec(),
                t0 == old(self).token_spec(),
                m0 == old(self).medida(),
                self.bem_formado(),
                self.tokens_spec() == ts,
                self.medida() < m0,
                (t0 is Identificador && forma_cabecalho_funcao(ts, p)) && token_em(ts, p + 3) is FechaParentesis && !(
                token_em(ts, p + 4) is QuebraLinha) ==> self.avancou(ts, p + 4),
                forma_parametro(ts, p + 3) matches Some(w) ==> (((t0 is Identificador && forma_cabecalho_funcao(ts, p))
                    && token_em(ts, p + 3 + w) is FechaParentesis && token_em(
                    ts,
                    p + 4 + w,
                ) is AbreChave) ==> self.avancou(ts, p + 4 + w)),
                forma_parametro(ts, p + 3) matches Some(w1) ==> (forma_parametro(
                    ts,
                    p + 4 + w1,
                ) matches Some(w2) ==> (((t0 is Identificador && forma_cabecalho_funcao(ts, p)) && token_em(
                    ts,
                    p + 3 + w1,
                ) is Virgula && token_em(ts, p + 4 + w1 + w2) is FechaParentesis && token_em(
                    ts,
                    p + 5 + w1 + w2,
                ) is AbreChave) ==> self.avancou(ts, p + 5 + w1 + w2))),
            ensures
                self.bem_formado(),
                self.tokens_spec() == ts,
                self.medida() < m0,
                (t0 is Identificador && forma_cabecalho_funcao(ts, p)) && token_em(ts, p + 3) is FechaParentesis && !(
                token_em(ts, p + 4) is QuebraLinha) ==> self.avancou(ts, p + 4),
                forma_parametro(ts, p + 3) matches Some(w) ==> (((t0 is Identificador && forma_cabecalho_funcao(ts, p))
                    && token_em(ts, p + 3 + w) is FechaParentesis && token_em(
                    ts,
                    p + 4 + w,
                ) is AbreChave) ==> self.avancou(ts, p + 4 + w)),
                forma_parametro(ts, p + 3) matches Some(w1) ==> (forma_parametro(
                    ts,
                    p + 4 + w1,
                ) matches Some(w2) ==> (((t0 is Identificador && forma_cabecalho_funcao(ts, p)) && token_em(
                    ts,
                    p + 3 + w1,
                ) is Virgula && token_em(ts, p + 4 + w1 + w2) is FechaParentesis && token_em(
                    ts,
                    p + 5 + w1 + w2,
                ) is AbreChave) ==> self.avancou(ts, p + 5 + w1 + w2))),
            decreases self.medida(),
        {
            if !matches!(&self.token_atual, Token::QuebraLinha) {
                break ;
            }
            self.avancar();
        }
        let corpo = match self.parse_bloco() {
            Ok(s) => s,
            Err(err) => {
                return Err(err);
            },
        };
        Ok(Stmt::DeclaracaoFuncao { tipo_retorno, nome, parametros, corpo: Box::new(corpo) })
    }

    /// A variable declaration: type tokens accumulate until an identifier
    /// followed by `=`, `;` or `[` names the variable (so multi-token types
    /// survive); then an optional array suffix, an optional initializer, and
    /// a mandatory `;`.
    pub fn parse_declaracao_variavel(&mut self) -> (r: Result<Stmt, ErroParse>)
        requires
            old(self).bem_formado(),
        ensures
            final(self).bem_formado(),
            final(self).tokens_spec() == old(self).tokens_spec(),
            final(self).medida() <= old(self).medida(),
            r matches Ok(s) ==> stmt_bem_formado(s) && final(self).medida() < old(self).medida(),
            r matches Err(err) ==> err.linha as int == final(self).linha_spec() && err.encontrado
                == final(self).token_spec(),
            ({
                let ts = old(self).tokens_spec();
                let p = old(self).posicao_spec();
                let t0 = old(self).token_spec();
                (t0 is Identificador && token_em(ts, p + 1) is Identificador && token_em(
                    ts,
                    p + 2,
                ) is PontoVirgula) ==> (r matches Ok(s) && (s matches Stmt::DeclaracaoVariavel {
                    tipo,
                    nome,
                    tamanho_array,
                    inicializador,
                } && tipo@ =~= seq![t0] && nome == token_em(ts, p + 1) && tamanho_array is None
                    && inicializador is None) && final(self).avancou(ts, p + 3))
            }),
            ({
                let ts = old(self).tokens_spec();
                let p = old(self).posicao_spec();
                let t0 = old(self).token_spec();
                expr_atomo(token_em(ts, p + 3)) matches Some(a3) ==> ((t0 is Identificador
                    && token_em(ts, p + 1) is Identificador && token_em(ts, p + 2) is Igual && (
                token_em(ts, p + 3) is Identificador ==> !(token_em(ts, p + 4) is AbreParentesis))
                    && token_em(ts, p + 4) is PontoVirgula) ==> (r matches Ok(s) && (s matches
                Stmt::DeclaracaoVariavel { tipo, nome, tamanho_array, inicializador } && tipo@
                    =~= seq![t0] && nome == token_em(ts, p + 1) && tamanho_array is None
                    && inicializador == Some(a3)) && final(self).avancou(ts, p + 5)))
            }),
            ({
                let ts = old(self).tokens_spec();
                let p = old(self).posicao_spec();
                let t0 = old(self).token_spec();
                expr_atomo(token_em(ts, p + 3)) matches Some(a3) ==> ((t0 is Identificador
                    && token_em(ts, p + 1) is Identificador && token_em(
                    ts,
                    p + 2,
                ) is AbreColchete && (token_em(ts, p + 3) is Identificador ==> !(token_em(
                    ts,
                    p + 4,
                ) is AbreParentesis)) && token_em(ts, p + 4) is FechaColchete && token_em(
                    ts,
                    p + 5,
                ) is PontoVirgula) ==> (r matches Ok(s) && (s matches Stmt::DeclaracaoVariavel {
                    tipo,
                    nome,
                    tamanho_array,
                    inicializador,
                } && tipo@ =~= seq![t0] && nome == token_em(ts, p + 1) && tamanho_array == Some(a3) && inicializador is None) && final(self).avancou(ts, p + 6)))
            }),
            ({
                let ts = old(self).tokens_spec();
                let p = old(self).posicao_spec();
                let t0 = old(self).token_spec();
                expr_atomo(token_em(ts, p + 3)) matches Some(a3) ==> (expr_atomo(
                    token_em(ts, p + 6),
                ) matches Some(a6) ==> ((t0 is Identificador && token_em(
                    ts,
                    p + 1,
                ) is Identificador && token_em(ts, p + 2) is AbreColchete && (token_em(
                    ts,
                    p + 3,
                ) is Identificador ==> !(token_em(ts, p + 4) is AbreParentesis)) && token_em(
                    ts,
                    p + 4,
                ) is FechaColchete && token_em(ts, p + 5) is Igual && (token_em(
                    ts,
                    p + 6,
                ) is Identificador ==> !(token_em(ts, p + 7) is AbreParentesis)) && token_em(
                    ts,
                    p + 7,
                ) is PontoVirgula) ==> (r matches Ok(s) && (s matches Stmt::DeclaracaoVariavel {
                    tipo,
                    nome,
                    tamanho_array,
                    inicializador,
                } && tipo@ =~= seq![t0] && nome == token_em(ts, p + 1) && tamanho_array == Some(a3)
                    && inicializador == Some(a6)) && final(self).avancou(ts, p + 8))))
            }),
            ({
                let ts = old(self).tokens_spec();
                let p = old(self).posicao_spec();
                let t0 = old(self).token_spec();
                (t0 is Identificador && token_em(ts, p + 1) is Identificador && token_em(
                    ts,
                    p + 2,
                ) is AbreColchete && token_em(ts, p + 3) is FechaColchete && token_em(
                    ts,
                    p + 4,
                ) is PontoVirgula) ==> (r matches Ok(s) && (s matches Stmt::DeclaracaoVariavel {
                    tipo,
                    nome,
                    tamanho_array,
                    inicializador,
                } && tipo@ =~= seq![t0] && nome == token_em(ts, p + 1) && tamanho_array == Some(Expr::ArrayDim) && inicializador is None) && final(self).avancou(ts, p + 5))
            }),
            ({
                let ts = old(self).tokens_spec();
                let p = old(self).posicao_spec();
                let t0 = old(self).token_spec();
                (t0 is Identificador && token_em(ts, p + 1) is Asterisco && token_em(
                    ts,
                    p + 2,
                ) is Identificador && token_em(ts, p + 3) is PontoVirgula) ==> (r matches Ok(s)
                    && (s matches Stmt::DeclaracaoVariavel {
                    tipo,
                    nome,
                    tamanho_array,
                    inicializador,
                } && tipo@ =~= seq![t0, token_em(ts, p + 1)] && nome == token_em(ts, p + 2)
                    && tamanho_array is None && inicializador is None) && final(self).avancou(
                    ts,
                    p + 4,
                ))
            }),
        decreases old(self).medida(), 11int,
    {
        let ghost ts = self.tokens_spec();
        let ghost p = self.posicao_spec();
        let ghost t0 = self.token_spec();
        let ghost m0 = self.medida();
        let mut tipo: Vec<Token> = Vec::new();
        proof {
            if t0 is Identificador {
                assert(self.avancou(ts, p));
            }
        }
        loop
            invariant
                old(self).bem_formado(),
                ts == old(self).tokens_spec(),
                p == old(self).posicao_spec(),
                t0 == old(self).token_spec(),
                m0 == old(self).medida(),
                self.bem_formado(),
                self.tokens_spec() == ts,
                self.medida() <= m0,
                (t0 is Identificador && token_em(ts, p + 1) is Identificador && (token_em(
                    ts,
                    p + 2,
                ) is PontoVirgula || token_em(ts, p + 2) is Igual || token_em(
                    ts,
                    p + 2,
                ) is AbreColchete)) ==> ((self.avancou(ts, p) && tipo@ =~= Seq::<Token>::empty())
                    || (self.avancou(ts, p + 1) && tipo@ =~= seq![t0])),
                (t0 is Identificador && token_em(ts, p + 1) is Asterisco && token_em(
                    ts,
                    p + 2,
                ) is Identificador && token_em(ts, p + 3) is PontoVirgula) ==> ((self.avancou(
                    ts,
                    p,
                ) && tipo@ =~= Seq::<Token>::empty()) || (self.avancou(ts, p + 1) && tipo@
                    =~= seq![t0]) || (self.avancou(ts, p + 2) && tipo@ =~= seq![
                    t0,
                    token_em(ts, p + 1),
                ])),
            ensures
                self.bem_formado(),
                self.tokens_spec() == ts,
                self.medida() <= m0,
                self.token_spec() is Fundo || (self.token_spec() is Identificador && (token_em(
                    ts,
                    self.posicao_spec() + 1,
                ) is Igual || token_em(ts, self.posicao_spec() + 1) is PontoVirgula || token_em(
                    ts,
                    self.posicao_spec() + 1,
                ) is AbreColchete)),
                (t0 is Identificador && token_em(ts, p + 1) is Identificador && (token_em(
                    ts,
                    p + 2,
                ) is PontoVirgula || token_em(ts, p + 2) is Igual || token_em(
                    ts,
                    p + 2,
                ) is AbreColchete)) ==> (self.avancou(ts, p + 1) && tipo@ =~= seq![t0]),
                (t0 is Identificador && token_em(ts, p + 1) is Asterisco && token_em(
                    ts,
                    p + 2,
                ) is Identificador && token_em(ts, p + 3) is PontoVirgula) ==> (self.avancou(
                    ts,
                    p + 2,
                ) && tipo@ =~= seq![t0, token_em(ts, p + 1)]),
            decreases self.medida(),
        {
            if matches!(&self.token_atual, Token::Fundo) {
                break ;
            }
            if matches!(&self.token_atual, Token::Identificador(_)) {
                let seguinte = self.espiadinha();
                if matches!(seguinte, Token::Igual) || matches!(seguinte, Token::PontoVirgula)
                    || matches!(seguinte, Token::AbreColchete) {
                    break ;
                }
            }
            tipo.push(self.token_atual.clone());
            self.avancar();
        }
        if !matches!(&self.token_atual, Token::Identificador(_)) {
            return Err(self.erro("nome de variavel depois do tipo"));
        }
        let nome = self.token_atual.clone();
        self.avancar();
        let tamanho_array: Option<Expr>;
        if matches!(&self.token_atual, Token::AbreColchete) {
            self.avancar();
            if matches!(&self.token_atual, Token::FechaColchete) {
                tamanho_array = Some(Expr::ArrayDim);
            } else {
                let tamanho = match self.parse_atribuicao() {
                    Ok(e) => e,
                    Err(err) => {
                        return Err(err);
                    },
                };
                tamanho_array = Some(tamanho);
            }
            if !matches!(&self.token_atual, Token::FechaColchete) {
                return Err(self.erro("']' depois do tamanho do array"));
            }
            self.avancar();
        } else {
            tamanho_array = None;
        }
        let inicializador: Option<Expr>;
        if matches!(&self.token_atual, Token::Igual) {
            self.avancar();
            let valor = match self.parse_atribuicao() {
                Ok(e) => e,
                Err(err) => {
                    return Err(err);
                },
            };
            inicializador = Some(valor);
        } else {
            inicializador = None;
        }
        if !matches!(&self.token_atual, Token::PontoVirgula) {
            return Err(self.erro("';' depois da declaracao de variavel"));
        }
        self.avancar();
        Ok(Stmt::DeclaracaoVariavel { tipo, nome, tamanho_array, inicializador })
    }

    /// One statement, dispatched on the current token: include and directive
    /// tokens, blocks, the `if`, `return` and `using` keywords, then the
    /// lookahead that tells function declarations, variable declarations and
    /// plain expression statements apart.
    #[verifier::rlimit(100)]
    #[verifier::spinoff_prover]
    pub fn parse_declaracao(&mut self) -> (r: Result<Stmt, ErroParse>)
        requires
            old(self).bem_formado(),
        ensures
            final(self).bem_formado(),
            final(self).tokens_spec() == old(self).tokens_spec(),
            final(self).medida() <= old(self).medida(),
            r matches Ok(s) ==> stmt_bem_formado(s) && final(self).medida() < old(self).medida(),
            r matches Err(err) ==> err.linha as int == final(self).linha_spec() && err.encontrado
                == final(self).token_spec(),
            ({
                let ts = old(self).tokens_spec();
                let p = old(self).posicao_spec();
                let t0 = old(self).token_spec();
                &&& (t0 matches Token::InclusaoGlobal(path) ==> (r matches Ok(s) && s
                    == Stmt::Inclusao { path, is_global: true } && final(self).avancou(ts, p + 1)))
                &&& (t0 matches Token::InclusaoLocal(path) ==> (r matches Ok(s) && s
                    == Stmt::Inclusao { path, is_global: false } && final(self).avancou(
                    ts,
                    p + 1,
                )))
                &&& (t0 matches Token::Diretiva(comando) ==> (r matches Ok(s) && s
                    == Stmt::Diretiva(comando) && final(self).avancou(ts, p + 1)))
                &&& (expr_atomo(t0) matches Some(ea) ==> (((t0 matches Token::Identificador(nm)
                    ==> (nm@ != "if"@ && nm@ != "return"@ && nm@ != "using"@)) && token_em(
                    ts,
                    p + 1,
                ) is PontoVirgula) ==> (r matches Ok(s) && s == Stmt::Expressao(ea) && final(self).avancou(ts, p + 2))))
                &&& ((t0 matches Token::Identificador(nm) && nm@ == "return"@ && token_em(
                    ts,
                    p + 1,
                ) is PontoVirgula) ==> (r matches Ok(s) && s == Stmt::Retorno(None) && final(self).avancou(ts, p + 2)))
                &&& (t0 matches Token::Identificador(nm) ==> (nm@ == "using"@ ==> (token_em(
                    ts,
                    p + 1,
                ) matches Token::Identificador(k) ==> (k@ == "namespace"@ ==> (token_em(
                    ts,
                    p + 2,
                ) matches Token::Identificador(espaco) ==> (token_em(ts, p + 3) is PontoVirgula
                    ==> (r matches Ok(s) && s == Stmt::Using { namespace: espaco } && final(self).avancou(ts, p + 4))))))))
                &&& ((t0 matches Token::Identificador(nm) && (nm@ != "if"@ && nm@ != "return"@
                    && nm@ != "using"@) && token_em(ts, p + 1) is Identificador && token_em(
                    ts,
                    p + 2,
                ) is PontoVirgula) ==> (r matches Ok(s) && (s matches Stmt::DeclaracaoVariavel {
                    tipo,
                    nome,
                    tamanho_array,
                    inicializador,
                } && tipo@ =~= seq![t0] && nome == token_em(ts, p + 1) && tamanho_array is None
                    && inicializador is None) && final(self).avancou(ts, p + 3)))
                &&& (expr_atomo(t0) matches Some(a0) ==> (expr_atomo(token_em(ts, p + 2)) matches
                Some(a2) ==> (operador_binario(token_em(ts, p + 1)) matches Some(op) ==> (((
                t0 matches Token::Identificador(nm) ==> (nm@ != "if"@ && nm@ != "return"@ && nm@
                    != "using"@ && !(token_em(ts, p + 1) is Asterisco))) && !para_atribuicao(
                    token_em(ts, p + 1),
                ) && (token_em(ts, p + 2) is Identificador ==> !(token_em(
                    ts,
                    p + 3,
                ) is AbreParentesis)) && token_em(ts, p + 3) is PontoVirgula) ==> ((r matches Ok(s) && s == Stmt::Expressao(
                    binario_de(a0, op, a2),
                )) && final(self).avancou(ts, p + 4))))))
                &&& (expr_atomo(t0) matches Some(a0) ==> (expr_atomo(token_em(ts, p + 2)) matches
                Some(a2) ==> (expr_atomo(token_em(ts, p + 4)) matches Some(a4) ==> (
                operador_binario(token_em(ts, p + 1)) matches Some(op1) ==> (operador_binario(
                    token_em(ts, p + 3),
                ) matches Some(op2) ==> (((t0 matches Token::Identificador(nm) ==> (nm@ != "if"@
                    && nm@ != "return"@ && nm@ != "using"@ && !(token_em(ts, p + 1) is Asterisco)))
                    && !para_atribuicao(token_em(ts, p + 1)) && nivel_operador(
                    token_em(ts, p + 3),
                ) < nivel_operador(token_em(ts, p + 1)) && (token_em(ts, p + 2) is Identificador
                    ==> !(token_em(ts, p + 3) is AbreParentesis)) && (token_em(
                    ts,
                    p + 4,
                ) is Identificador ==> !(token_em(ts, p + 5) is AbreParentesis)) && token_em(
                    ts,
                    p + 5,
                ) is PontoVirgula) ==> ((r matches Ok(s) && s == Stmt::Expressao(
                    binario_de(a0, op1, binario_de(a2, op2, a4)),
                )) && final(self).avancou(ts, p + 6))))))))
                &&& (expr_atomo(token_em(ts, p + 2)) matches Some(a2) ==> ((t0 matches
                Token::Identificador(nm) && (nm@ != "if"@ && nm@ != "return"@ && nm@ != "using"@)
                    && token_em(ts, p + 1) is Igual && (token_em(ts, p + 2) is Identificador
                    ==> !(token_em(ts, p + 3) is AbreParentesis)) && token_em(
                    ts,
                    p + 3,
                ) is PontoVirgula) ==> ((r matches Ok(s) && s == Stmt::Expressao(
                    Expr::Atribuicao { alvo: Box::new(Expr::Variavel(t0)), valor: Box::new(a2) },
                )) && final(self).avancou(ts, p + 4))))
                &&& (expr_atomo(token_em(ts, p + 1)) matches Some(a1) ==> ((t0 matches
                Token::Identificador(nm) && nm@ == "return"@ && (token_em(
                    ts,
                    p + 1,
                ) is Identificador ==> !(token_em(ts, p + 2) is AbreParentesis)) && token_em(
                    ts,
                    p + 2,
                ) is PontoVirgula) ==> ((r matches Ok(s) && s == Stmt::Retorno(Some(a1)))
                    && final(self).avancou(ts, p + 3))))
                &&& ((t0 == token_em(ts, p) && forma_retorno_binario(ts, p)) ==> ((r matches Ok(s)
                    && s == retorno_binario(ts, p)) && final(self).avancou(ts, p + 5)))
                &&& ((t0 matches Token::Identificador(nm) && (nm@ != "if"@ && nm@ != "return"@
                    && nm@ != "using"@) && forma_cabecalho_funcao(ts, p) && token_em(
                    ts,
                    p + 3,
                ) is FechaParentesis && token_em(ts, p + 4) is AbreChave && token_em(
                    ts,
                    p + 5,
                ) is FechaChave) ==> (r matches Ok(s) && (s matches Stmt::DeclaracaoFuncao {
                    tipo_retorno,
                    nome,
                    parametros,
                    corpo,
                } && tipo_retorno@ =~= seq![t0] && nome == token_em(ts, p + 1)
                    && parametros@.len() == 0 && (*corpo matches Stmt::Bloco { declaracoes }
                    && declaracoes@.len() == 0)) && final(self).avancou(ts, p + 6)))
                &&& (forma_parametro(ts, p + 3) matches Some(w) ==> ((t0 matches
                Token::Identificador(nm) && (nm@ != "if"@ && nm@ != "return"@ && nm@ != "using"@)
                    && forma_cabecalho_funcao(ts, p) && token_em(
                    ts,
                    p + 3 + w,
                ) is FechaParentesis && token_em(ts, p + 4 + w) is AbreChave && token_em(
                    ts,
                    p + 5 + w,
                ) is FechaChave) ==> (r matches Ok(s) && (s matches Stmt::DeclaracaoFuncao {
                    tipo_retorno,
                    nome,
                    parametros,
                    corpo,
                } && tipo_retorno@ =~= seq![t0] && nome == token_em(ts, p + 1)
                    && parametros@.len() == 1 && parametro_confere(parametros@[0], ts, p + 3) && (
                *corpo matches Stmt::Bloco { declaracoes } && declaracoes@.len() == 0)) && final(self).avancou(ts, p + 6 + w))))
                &&& (forma_parametro(ts, p + 3) matches Some(w1) ==> (forma_parametro(
                    ts,
                    p + 4 + w1,
                ) matches Some(w2) ==> ((t0 matches Token::Identificador(nm) && (nm@ != "if"@
                    && nm@ != "return"@ && nm@ != "using"@) && forma_cabecalho_funcao(ts, p)
                    && token_em(ts, p + 3 + w1) is Virgula && token_em(
                    ts,
                    p + 4 + w1 + w2,
                ) is FechaParentesis && token_em(ts, p + 5 + w1 + w2) is AbreChave
                    && forma_retorno_binario(ts, p + 6 + w1 + w2) && token_em(
                    ts,
                    p + 11 + w1 + w2,
                ) is FechaChave) ==> (r matches Ok(s) && (s matches Stmt::DeclaracaoFuncao {
                    tipo_retorno,
                    nome,
                    parametros,
                    corpo,
                } && tipo_retorno@ =~= seq![t0] && nome == token_em(ts, p + 1)
                    && parametros@.len() == 2 && parametro_confere(parametros@[0], ts, p + 3)
                    && parametro_confere(parametros@[1], ts, p + 4 + w1) && (
                *corpo matches Stmt::Bloco { declaracoes } && declaracoes@.len() == 1
                    && declaracoes@[0] == retorno_binario(ts, p + 6 + w1 + w2))) && final(self).avancou(ts, p + 12 + w1 + w2)))))
            }),
            ({
                let ts = old(self).tokens_spec();
                let p = old(self).posicao_spec();
                let t0 = old(self).token_spec();
                forma_operando(ts, p) matches Some(par0) ==> (forma_operando(
                    ts,
                    p + par0.1 + 1,
                ) matches Some(par1) ==> (operador_binario(token_em(ts, p + par0.1)) matches Some(
                    op,
                ) ==> ((t0 == token_em(ts, p) && (token_em(ts, p) matches Token::Identificador(nm) ==> (nm@ != "if"@
                    && nm@ != "return"@ && nm@ != "using"@ && !(token_em(ts, p + 1) is Asterisco)))
                    && !para_atribuicao(token_em(ts, p + par0.1))
                    && token_em(ts, p + par0.1 + 1 + par1.1) is PontoVirgula) ==> ((r matches Ok(s) && s == Stmt::Expressao(binario_de(par0.0, op, par1.0))) && final(self).avancou(
                    ts,
                    p + par0.1 + 2 + par1.1,
                )))))
            }),
        decreases old(self).medida(), 12int,
    {
        broadcast use vstd::string::group_string_axioms;

        proof {
            reveal_strlit("if");
            reveal_strlit("return");
            reveal_strlit("using");
            reveal_strlit("namespace");
            assert("if"@.len() == 2 && "return"@.len() == 6 && "using"@.len() == 5);
            assert("if"@ != "return"@ && "if"@ != "using"@ && "return"@ != "using"@);
        }
        let atual = self.token_atual.clone();
        match &atual {
            Token::InclusaoGlobal(_) => self.parse_diretiva_inclusao(),
            Token::InclusaoLocal(_) => self.parse_diretiva_inclusao(),
            Token::Diretiva(_) => self.parse_diretiva_outra(),
            Token::AbreChave => self.parse_bloco(),
            Token::Identificador(nome) => {
                if texto_igual(nome, "if") {
                    return self.parse_declaracao_if();
                }
                if texto_igual(nome, "return") {
                    self.avancar();
                    let valor: Option<Expr>;
                    if matches!(&self.token_atual, Token::PontoVirgula) {
                        valor = None;
                    } else {
                        let devolvido = match self.parse_atribuicao() {
                            Ok(e) => e,
                            Err(err) => {
                                return Err(err);
                            },
                        };
                        valor = Some(devolvido);
                    }
                    if !matches!(&self.token_atual, Token::PontoVirgula) {
                        return Err(self.erro("';' depois de return"));
                    }
                    self.avancar();
                    return Ok(Stmt::Retorno(valor));
                }
                if texto_igual(nome, "using") {
                    self.avancar();
                    let nomeia_namespace = match &self.token_atual {
                        Token::Identificador(palavra) => texto_igual(palavra, "namespace"),
                        _ => false,
                    };
                    if !nomeia_namespace {
                        return Err(self.erro("'namespace' depois de 'using'"));
                    }
                    self.avancar();
                    let namespace_nome = match &self.token_atual {
                        Token::Identificador(espaco) => espaco.clone(),
                        _ => {
                            return Err(self.erro("nome do namespace"));
                        },
                    };
                    self.avancar();
                    if !matches!(&self.token_atual, Token::PontoVirgula) {
                        return Err(self.erro("';' depois de using namespace"));
                    }
                    self.avancar();
                    return Ok(Stmt::Using { namespace: namespace_nome });
                }
                if matches!(self.espiadinha(), Token::Identificador(_)) {
                    if matches!(self.espiar_dois_passos(), Token::AbreParentesis) {
                        self.parse_declaracao_funcao()
                    } else {
                        self.parse_declaracao_variavel()
                    }
                } else if matches!(self.espiadinha(), Token::Asterisco) {
                    self.parse_declaracao_variavel()
                } else {
                    self.parse_declaracao_expressao()
                }
            },
            _ => self.parse_declaracao_expressao(),
        }
    }

    /// The whole program: statements parsed one after another, bare newline
    /// tokens between them skipped, until the end-of-input sentinel. On
    /// success the entire buffer has been consumed; an empty buffer yields an
    /// empty statement sequence.
    pub fn parse(&mut self) -> (r: Result<Vec<Stmt>, ErroParse>)
        requires
            old(self).bem_formado(),
        ensures
            final(self).bem_formado(),
            final(self).tokens_spec() == old(self).tokens_spec(),
            r matches Ok(ds) ==> (forall|i: int|
                0 <= i < ds@.len() ==> stmt_bem_formado(#[trigger] ds@[i])) && final(self).token_spec() is Fundo,
            old(self).token_spec() is Fundo ==> (r matches Ok(ds) && ds@.len() == 0),
            (forall|i: int|
                old(self).posicao_spec() <= i < old(self).tokens_spec().len() ==> ((
                #[trigger] old(self).tokens_spec()[i]).0 is QuebraLinha || old(self).tokens_spec()[i].0 is Fundo)) ==> (r matches Ok(ds) && ds@.len() == 0),
            ({
                let ts = old(self).tokens_spec();
                let p = old(self).posicao_spec();
                let t0 = old(self).token_spec();
                expr_atomo(t0) matches Some(ea) ==> (((t0 matches Token::Identificador(nm) ==> (
                nm@ != "if"@ && nm@ != "return"@ && nm@ != "using"@)) && token_em(
                    ts,
                    p + 1,
                ) is PontoVirgula && token_em(ts, p + 2) is Fundo) ==> (r matches Ok(ds)
                    && ds@.len() == 1 && ds@[0] == Stmt::Expressao(ea)))
            }),
            ({
                let ts = old(self).tokens_spec();
                let p = old(self).posicao_spec();
                (old(self).token_spec() == token_em(ts, p) && forma_precedencia(ts, p)
                    && token_em(ts, p + 6) is Fundo) ==> (r matches Ok(ds) && ds@.len() == 1
                    && ds@[0] == Stmt::Expressao(arvore_precedencia(ts, p)))
            }),
            ({
                let ts = old(self).tokens_spec();
                let p = old(self).posicao_spec();
                let t0 = old(self).token_spec();
                t0 matches Token::InclusaoGlobal(path) ==> (token_em(ts, p + 1) is Fundo ==> (
                r matches Ok(ds) && ds@.len() == 1 && ds@[0] == Stmt::Inclusao {
                    path,
                    is_global: true,
                }))
            }),
            ({
                let ts = old(self).tokens_spec();
                let p = old(self).posicao_spec();
                let t0 = old(self).token_spec();
                t0 matches Token::InclusaoLocal(path) ==> (token_em(ts, p + 1) is Fundo ==> (
                r matches Ok(ds) && ds@.len() == 1 && ds@[0] == Stmt::Inclusao {
                    path,
                    is_global: false,
                }))
            }),
            r matches Err(err) ==> err.linha as int == final(self).linha_spec() && err.encontrado
                == final(self).token_spec(),
            ({
                let ts = old(self).tokens_spec();
                let p = old(self).posicao_spec();
                let t0 = old(self).token_spec();
                forma_operando(ts, p) matches Some(par0) ==> (forma_operando(
                    ts,
                    p + par0.1 + 1,
                ) matches Some(par1) ==> (operador_binario(token_em(ts, p + par0.1)) matches Some(
                    op,
                ) ==> ((t0 == token_em(ts, p) && (token_em(ts, p) matches Token::Identificador(nm) ==> (nm@ != "if"@
                    && nm@ != "return"@ && nm@ != "using"@ && !(token_em(ts, p + 1) is Asterisco)))
                    && !para_atribuicao(token_em(ts, p + par0.1))
                    && token_em(ts, p + par0.1 + 1 + par1.1) is PontoVirgula && token_em(
                    ts,
                    p + par0.1 + 2 + par1.1,
                ) is Fundo) ==> (r matches Ok(ds) && ds@.len() == 1 && ds@[0] == Stmt::Expressao(
                    binario_de(par0.0, op, par1.0),
                )))))
            }),
        decreases old(self).medida(), 13int,
    {
        let ghost ts = self.tokens_spec();
        let ghost p0 = self.posicao_spec();
        let ghost t0 = self.token_spec();
        let ghost m0 = self.medida();
        let mut declaracoes: Vec<Stmt> = Vec::new();
        loop
            invariant
                old(self).bem_formado(),
                ts == old(self).tokens_spec(),
                p0 == old(self).posicao_spec(),
                t0 == old(self).token_spec(),
                m0 == old(self).medida(),
                self.bem_formado(),
                self.tokens_spec() == ts,
                self.medida() <= m0,
                forall|i: int|
                    0 <= i < declaracoes@.len() ==> stmt_bem_formado(#[trigger] declaracoes@[i]),
                t0 is Fundo ==> (self.token_spec() is Fundo && declaracoes@.len() == 0),
                (forall|i: int|
                    p0 <= i < ts.len() ==> ((#[trigger] ts[i]).0 is QuebraLinha
                        || ts[i].0 is Fundo)) ==> (declaracoes@.len() == 0 && p0
                    <= self.posicao_spec()),
                expr_atomo(t0) matches Some(ea) ==> (((t0 matches Token::Identificador(nm) ==> (
                nm@ != "if"@ && nm@ != "return"@ && nm@ != "using"@)) && token_em(
                    ts,
                    p0 + 1,
                ) is PontoVirgula && token_em(ts, p0 + 2) is Fundo) ==> ((self.avancou(ts, p0)
                    && declaracoes@.len() == 0) || (self.avancou(ts, p0 + 2) && declaracoes@.len()
                    == 1 && declaracoes@[0] == Stmt::Expressao(ea)))),
                (t0 == token_em(ts, p0) && forma_precedencia(ts, p0) && token_em(
                    ts,
                    p0 + 6,
                ) is Fundo) ==> ((self.avancou(ts, p0) && declaracoes@.len() == 0) || (
                self.avancou(ts, p0 + 6) && declaracoes@.len() == 1 && declaracoes@[0]
                    == Stmt::Expressao(arvore_precedencia(ts, p0)))),
                forma_operando(ts, p0) matches Some(par0) ==> (forma_operando(
                    ts,
                    p0 + par0.1 + 1,
                ) matches Some(par1) ==> (operador_binario(token_em(ts, p0 + par0.1)) matches Some(
                    op,
                ) ==> ((t0 == token_em(ts, p0) && (token_em(ts, p0) matches Token::Identificador(nm) ==> (nm@ != "if"@
                    && nm@ != "return"@ && nm@ != "using"@ && !(token_em(
                    ts,
                    p0 + 1,
                ) is Asterisco))) && !para_atribuicao(
                    token_em(ts, p0 + par0.1),
                ) && token_em(ts, p0 + par0.1 + 1 + par1.1) is PontoVirgula && token_em(
                    ts,
                    p0 + par0.1 + 2 + par1.1,
                ) is Fundo) ==> ((self.avancou(ts, p0) && declaracoes@.len() == 0) || (self.avancou(
                    ts,
                    p0 + par0.1 + 2 + par1.1,
                ) && declaracoes@.len() == 1 && declaracoes@[0] == Stmt::Expressao(
                    binario_de(par0.0, op, par1.0),
                )))))),
                t0 matches Token::InclusaoGlobal(path) ==> (token_em(ts, p0 + 1) is Fundo ==> ((
                self.avancou(ts, p0) && declaracoes@.len() == 0) || (self.avancou(ts, p0 + 1)
                    && declaracoes@.len() == 1 && declaracoes@[0] == Stmt::Inclusao {
                    path,
                    is_global: true,
                }))),
                t0 matches Token::InclusaoLocal(path) ==> (token_em(ts, p0 + 1) is Fundo ==> ((
                self.avancou(ts, p0) && declaracoes@.len() == 0) || (self.avancou(ts, p0 + 1)
                    && declaracoes@.len() == 1 && declaracoes@[0] == Stmt::Inclusao {
                    path,
                    is_global: false,
                }))),
            ensures
                self.bem_formado(),
                self.tokens_spec() == ts,
                self.token_spec() is Fundo,
                forall|i: int|
                    0 <= i < declaracoes@.len() ==> stmt_bem_formado(#[trigger] declaracoes@[i]),
                t0 is Fundo ==> declaracoes@.len() == 0,
                (forall|i: int|
                    p0 <= i < ts.len() ==> ((#[trigger] ts[i]).0 is QuebraLinha
                        || ts[i].0 is Fundo)) ==> declaracoes@.len() == 0,
                expr_atomo(t0) matches Some(ea) ==> (((t0 matches Token::Identificador(nm) ==> (
                nm@ != "if"@ && nm@ != "return"@ && nm@ != "using"@)) && token_em(
                    ts,
                    p0 + 1,
                ) is PontoVirgula && token_em(ts, p0 + 2) is Fundo) ==> (declaracoes@.len() == 1
                    && declaracoes@[0] == Stmt::Expressao(ea))),
                (t0 == token_em(ts, p0) && forma_precedencia(ts, p0) && token_em(
                    ts,
                    p0 + 6,
                ) is Fundo) ==> (declaracoes@.len() == 1 && declaracoes@[0] == Stmt::Expressao(
                    arvore_precedencia(ts, p0),
                )),
                forma_operando(ts, p0) matches Some(par0) ==> (forma_operando(
                    ts,
                    p0 + par0.1 + 1,
                ) matches Some(par1) ==> (operador_binario(token_em(ts, p0 + par0.1)) matches Some(
                    op,
                ) ==> ((t0 == token_em(ts, p0) && (token_em(ts, p0) matches Token::Identificador(nm) ==> (nm@ != "if"@
                    && nm@ != "return"@ && nm@ != "using"@ && !(token_em(
                    ts,
                    p0 + 1,
                ) is Asterisco))) && !para_atribuicao(
                    token_em(ts, p0 + par0.1),
                ) && token_em(ts, p0 + par0.1 + 1 + par1.1) is PontoVirgula && token_em(
                    ts,
                    p0 + par0.1 + 2 + par1.1,
                ) is Fundo) ==> (declaracoes@.len() == 1 && declaracoes@[0] == Stmt::Expressao(
                    binario_de(par0.0, op, par1.0),
                ))))),
                t0 matches Token::InclusaoGlobal(path) ==> (token_em(ts, p0 + 1) is Fundo ==> (
                declaracoes@.len() == 1 && declaracoes@[0] == Stmt::Inclusao {
                    path,
                    is_global: true,
                })),
                t0 matches Token::InclusaoLocal(path) ==> (token_em(ts, p0 + 1) is Fundo ==> (
                declaracoes@.len() == 1 && declaracoes@[0] == Stmt::Inclusao {
                    path,
                    is_global: false,
                })),
            decreases self.medida(),
        {
            if matches!(&self.token_atual, Token::Fundo) {
                break ;
            }
            if matches!(&self.token_atual, Token::QuebraLinha) {
                self.avancar();
                continue ;
            }
            let declaracao = match self.parse_declaracao() {
                Ok(s) => s,
                Err(err) => {
                    return Err(err);
                },
            };
            declaracoes.push(declaracao);
        }
        Ok(declaracoes)
    }

    /// The multiplicative level: `*`, `/` and `%` over factors, left associative.
    /// One of this cascade's binary operators joining lone operands before a
    /// full stop owes the one binary node; a tighter operator on the right
    /// nests first.
    pub fn parse_termo(&mut self) -> (r: Result<Expr, ErroParse>)
        requires
            old(self).bem_formado(),
        ensures
            final(self).bem_formado(),
            final(self).tokens_spec() == old(self).tokens_spec(),
            final(self).medida() <= old(self).medida(),
            r matches Ok(e) ==> expr_bem_formada(e) && final(self).medida() < old(self).medida(),
            r matches Err(err) ==> err.linha as int == final(self).linha_spec() && err.encontrado
                == final(self).token_spec(),
            ({
                let ts = old(self).tokens_spec();
                let p = old(self).posicao_spec();
                let t0 = old(self).token_spec();
                expr_atomo(t0) matches Some(ea) ==> (((t0 is Identificador ==> !(token_em(
                    ts,
                    p + 1,
                ) is AbreParentesis)) && para_termo(token_em(ts, p + 1))) ==> ((r matches Ok(e) && e == ea) && final(self).avancou(ts, p + 1)))
            }),
            ({
                let ts = old(self).tokens_spec();
                let p = old(self).posicao_spec();
                let t0 = old(self).token_spec();
                expr_atomo(t0) matches Some(a0) ==> (expr_atomo(token_em(ts, p + 2)) matches Some(
                    a2,
                ) ==> (operador_binario(token_em(ts, p + 1)) matches Some(op) ==> ((!para_termo(
                    token_em(ts, p + 1),
                ) && (token_em(ts, p + 2) is Identificador ==> !(token_em(
                    ts,
                    p + 3,
                ) is AbreParentesis)) && para_termo(token_em(ts, p + 3))) ==> ((r matches Ok(e) && e == binario_de(a0, op, a2)) && final(self).avancou(ts, p + 3)))))
            }),
            ({
                let ts = old(self).tokens_spec();
                let p = old(self).posicao_spec();
                let t0 = old(self).token_spec();
                expr_atomo(t0) matches Some(a0) ==> (expr_atomo(token_em(ts, p + 2)) matches Some(
                    a2,
                ) ==> (expr_atomo(token_em(ts, p + 4)) matches Some(a4) ==> (operador_binario(
                    token_em(ts, p + 1),
                ) matches Some(op1) ==> (operador_binario(token_em(ts, p + 3)) matches Some(
                    op2,
                ) ==> ((!para_termo(token_em(ts, p + 1)) && nivel_operador(token_em(ts, p + 3))
                    < nivel_operador(token_em(ts, p + 1)) && (token_em(
                    ts,
                    p + 2,
                ) is Identificador ==> !(token_em(ts, p + 3) is AbreParentesis)) && (token_em(
                    ts,
                    p + 4,
                ) is Identificador ==> !(token_em(ts, p + 5) is AbreParentesis)) && para_termo(
                    token_em(ts, p + 5),
                )) ==> ((r matches Ok(e) && e == binario_de(a0, op1, binario_de(a2, op2, a4))) && final(self).avancou(ts, p + 5)))))))
            }),
                ({
                let ts = old(self).tokens_spec();
                let p = old(self).posicao_spec();
                let t0 = old(self).token_spec();
                expr_atomo(t0) matches Some(a0) ==> (expr_atomo(token_em(ts, p + 2)) matches Some(
                    a2,
                ) ==> (expr_atomo(token_em(ts, p + 4)) matches Some(a4) ==> (operador_binario(
                    token_em(ts, p + 1),
                ) matches Some(op1) ==> (operador_binario(token_em(ts, p + 3)) matches Some(
                    op2,
                ) ==> ((!para_termo(token_em(ts, p + 1)) && !para_termo(token_em(ts, p + 3))
                    && nivel_operador(token_em(ts, p + 3)) >= nivel_operador(token_em(ts, p + 1))
                    && (token_em(ts, p + 2) is Identificador ==> !(token_em(
                    ts,
                    p + 3,
                ) is AbreParentesis)) && (token_em(ts, p + 4) is Identificador ==> !(token_em(
                    ts,
                    p + 5,
                ) is AbreParentesis)) && para_termo(token_em(ts, p + 5))) ==> ((r matches Ok(e) && e
                    == binario_de(binario_de(a0, op1, a2), op2, a4)) && final(self).avancou(ts, p + 5)))))))
            }),
            ({
                let ts = old(self).tokens_spec();
                let p = old(self).posicao_spec();
                let t0 = old(self).token_spec();
                forma_operando(ts, p) matches Some(par) ==> ((t0 == token_em(ts, p) && para_termo(
                    token_em(ts, p + par.1),
                )) ==> ((r matches Ok(e) && e == par.0) && final(self).avancou(ts, p + par.1)))
            }),
            ({
                let ts = old(self).tokens_spec();
                let p = old(self).posicao_spec();
                let t0 = old(self).token_spec();
                forma_operando(ts, p) matches Some(par0) ==> (forma_operando(
                    ts,
                    p + par0.1 + 1,
                ) matches Some(par1) ==> (operador_binario(token_em(ts, p + par0.1)) matches Some(
                    op,
                ) ==> ((t0 == token_em(ts, p) && !para_termo(token_em(ts, p + par0.1)) && para_termo(
                    token_em(ts, p + par0.1 + 1 + par1.1),
                )) ==> ((r matches Ok(e) && e == binario_de(par0.0, op, par1.0)) && final(self).avancou(ts, p + par0.1 + 1 + par1.1)))))
            }),
        decreases old(self).medida(), 2int,
    {
        let ghost ts = self.tokens_spec();
        let ghost p = self.posicao_spec();
        let ghost t0 = self.token_spec();
        let ghost m0 = self.medida();
        let mut expr = match self.parse_fator() {
            Ok(e) => e,
            Err(err) => {
                return Err(err);
            },
        };
        loop
            invariant
                ts == old(self).tokens_spec(),
                p == old(self).posicao_spec(),
                t0 == old(self).token_spec(),
                m0 == old(self).medida(),
                self.bem_formado(),
                self.tokens_spec() == ts,
                self.medida() < m0,
                expr_bem_formada(expr),
                expr_atomo(t0) matches Some(ea) ==> (((t0 is Identificador ==> !(token_em(
                    ts,
                    p + 1,
                ) is AbreParentesis)) && para_termo(token_em(ts, p + 1))) ==> (expr == ea && self.avancou(ts, p + 1))),
                expr_atomo(t0) matches Some(a0) ==> (expr_atomo(token_em(ts, p + 2)) matches Some(
                    a2,
                ) ==> (operador_binario(token_em(ts, p + 1)) matches Some(op) ==> ((!para_termo(
                    token_em(ts, p + 1),
                ) && (token_em(ts, p + 2) is Identificador ==> !(token_em(
                    ts,
                    p + 3,
                ) is AbreParentesis)) && para_termo(token_em(ts, p + 3))) ==> ((para_fator(token_em(ts, p + 1)) && self.avancou(ts, p + 1) && expr == a0) || (self.avancou(ts, p + 3) && expr == binario_de(a0, op, a2)))))),
                expr_atomo(t0) matches Some(a0) ==> (expr_atomo(token_em(ts, p + 2)) matches Some(
                    a2,
                ) ==> (expr_atomo(token_em(ts, p + 4)) matches Some(a4) ==> (operador_binario(
                    token_em(ts, p + 1),
                ) matches Some(op1) ==> (operador_binario(token_em(ts, p + 3)) matches Some(
                    op2,
                ) ==> ((!para_termo(token_em(ts, p + 1)) && nivel_operador(token_em(ts, p + 3))
                    < nivel_operador(token_em(ts, p + 1)) && (token_em(
                    ts,
                    p + 2,
                ) is Identificador ==> !(token_em(ts, p + 3) is AbreParentesis)) && (token_em(
                    ts,
                    p + 4,
                ) is Identificador ==> !(token_em(ts, p + 5) is AbreParentesis)) && para_termo(
                    token_em(ts, p + 5),
                )) ==> ((para_fator(token_em(ts, p + 1)) && self.avancou(ts, p + 1) && expr == a0) || (self.avancou(ts, p + 5) && expr == binario_de(a0, op1, binario_de(a2, op2, a4))))))))),
                expr_atomo(t0) matches Some(a0) ==> (expr_atomo(token_em(ts, p + 2)) matches Some(
                    a2,
                ) ==> (expr_atomo(token_em(ts, p + 4)) matches Some(a4) ==> (operador_binario(
                    token_em(ts, p + 1),
                ) matches Some(op1) ==> (operador_binario(token_em(ts, p + 3)) matches Some(
                    op2,
                ) ==> ((!para_termo(token_em(ts, p + 1)) && !para_termo(token_em(ts, p + 3))
                    && nivel_operador(token_em(ts, p + 3)) >= nivel_operador(token_em(ts, p + 1))
                    && (token_em(ts, p + 2) is Identificador ==> !(token_em(
                    ts,
                    p + 3,
                ) is AbreParentesis)) && (token_em(ts, p + 4) is Identificador ==> !(token_em(
                    ts,
                    p + 5,
                ) is AbreParentesis)) && para_termo(token_em(ts, p + 5))) ==> ((para_fator(token_em(ts, p + 1)) && self.avancou(ts, p + 1) && expr == a0) || (
                para_fator(token_em(ts, p + 3)) && self.avancou(ts, p + 3) && expr == binario_de(a0, op1, a2)) || (self.avancou(ts, p + 5) && expr == binario_de(binario_de(a0, op1, a2), op2, a4)))))))),
                forma_operando(ts, p) matches Some(par) ==> ((t0 == token_em(ts, p) && para_termo(
                    token_em(ts, p + par.1),
                )) ==> (expr == par.0 && self.avancou(ts, p + par.1))),
                forma_operando(ts, p) matches Some(par0) ==> (forma_operando(
                    ts,
                    p + par0.1 + 1,
                ) matches Some(par1) ==> (operador_binario(token_em(ts, p + par0.1)) matches Some(
                    op,
                ) ==> ((t0 == token_em(ts, p) && !para_termo(token_em(ts, p + par0.1)) && para_termo(
                    token_em(ts, p + par0.1 + 1 + par1.1),
                )) ==> ((para_fator(token_em(ts, p + par0.1)) && self.avancou(ts, p + par0.1) && expr
                    == par0.0) || (self.avancou(ts, p + par0.1 + 1 + par1.1) && expr == binario_de(
                    par0.0,
                    op,
                    par1.0,
                )))))),
            ensures
                self.bem_formado(),
                self.tokens_spec() == ts,
                self.medida() < m0,
                expr_bem_formada(expr),
                expr_atomo(t0) matches Some(ea) ==> (((t0 is Identificador ==> !(token_em(
                    ts,
                    p + 1,
                ) is AbreParentesis)) && para_termo(token_em(ts, p + 1))) ==> (expr == ea && self.avancou(ts, p + 1))),
                expr_atomo(t0) matches Some(a0) ==> (expr_atomo(token_em(ts, p + 2)) matches Some(
                    a2,
                ) ==> (operador_binario(token_em(ts, p + 1)) matches Some(op) ==> ((!para_termo(
                    token_em(ts, p + 1),
                ) && (token_em(ts, p + 2) is Identificador ==> !(token_em(
                    ts,
                    p + 3,
                ) is AbreParentesis)) && para_termo(token_em(ts, p + 3))) ==> (self.avancou(ts, p + 3) && expr == binario_de(a0, op, a2))))),
                expr_atomo(t0) matches Some(a0) ==> (expr_atomo(token_em(ts, p + 2)) matches Some(
                    a2,
                ) ==> (expr_atomo(token_em(ts, p + 4)) matches Some(a4) ==> (operador_binario(
                    token_em(ts, p + 1),
                ) matches Some(op1) ==> (operador_binario(token_em(ts, p + 3)) matches Some(
                    op2,
                ) ==> ((!para_termo(token_em(ts, p + 1)) && nivel_operador(token_em(ts, p + 3))
                    < nivel_operador(token_em(ts, p + 1)) && (token_em(
                    ts,
                    p + 2,
                ) is Identificador ==> !(token_em(ts, p + 3) is AbreParentesis)) && (token_em(
                    ts,
                    p + 4,
                ) is Identificador ==> !(token_em(ts, p + 5) is AbreParentesis)) && para_termo(
                    token_em(ts, p + 5),
                )) ==> (self.avancou(ts, p + 5) && expr == binario_de(a0, op1, binario_de(a2, op2, a4)))))))),
                expr_atomo(t0) matches Some(a0) ==> (expr_atomo(token_em(ts, p + 2)) matches Some(
                    a2,
                ) ==> (expr_atomo(token_em(ts, p + 4)) matches Some(a4) ==> (operador_binario(
                    token_em(ts, p + 1),
                ) matches Some(op1) ==> (operador_binario(token_em(ts, p + 3)) matches Some(
                    op2,
                ) ==> ((!para_termo(token_em(ts, p + 1)) && !para_termo(token_em(ts, p + 3))
                    && nivel_operador(token_em(ts, p + 3)) >= nivel_operador(token_em(ts, p + 1))
                    && (token_em(ts, p + 2) is Identificador ==> !(token_em(
                    ts,
                    p + 3,
                ) is AbreParentesis)) && (token_em(ts, p + 4) is Identificador ==> !(token_em(
                    ts,
                    p + 5,
                ) is AbreParentesis)) && para_termo(token_em(ts, p + 5))) ==> (self.avancou(ts, p + 5) && expr == binario_de(binario_de(a0, op1, a2), op2, a4))))))),
                forma_operando(ts, p) matches Some(par) ==> ((t0 == token_em(ts, p) && para_termo(
                    token_em(ts, p + par.1),
                )) ==> (expr == par.0 && self.avancou(ts, p + par.1))),
                forma_operando(ts, p) matches Some(par0) ==> (forma_operando(
                    ts,
                    p + par0.1 + 1,
                ) matches Some(par1) ==> (operador_binario(token_em(ts, p + par0.1)) matches Some(
                    op,
                ) ==> ((t0 == token_em(ts, p) && !para_termo(token_em(ts, p + par0.1)) && para_termo(
                    token_em(ts, p + par0.1 + 1 + par1.1),
                )) ==> (self.avancou(ts, p + par0.1 + 1 + par1.1) && expr == binario_de(par0.0, op, par1.0))))),
            decreases self.medida(),
        {
            let operador = match &self.token_atual {
                Token::Asterisco => Operador::Asterisco,
                Token::Divisao => Operador::Divisao,
                Token::Modulo => Operador::Modulo,
                _ => {
                    break ;
                },
            };
            self.avancar();
            let direita = match self.parse_fator() {
                Ok(e) => e,
                Err(err) => {
                    return Err(err);
                },
            };
            expr = Expr::Binario { esquerda: Box::new(expr), operador, direita: Box::new(direita) };
        }
        Ok(expr)
    }

    /// The additive level: `+` and `-` over terms, left associative.
    /// One of this cascade's binary operators joining lone operands before a
    /// full stop owes the one binary node; a tighter operator on the right
    /// nests first.
    pub fn parse_expressao(&mut self) -> (r: Result<Expr, ErroParse>)
        requires
            old(self).bem_formado(),
        ensures
            final(self).bem_formado(),
            final(self).tokens_spec() == old(self).tokens_spec(),
            final(self).medida() <= old(self).medida(),
            r matches Ok(e) ==> expr_bem_formada(e) && final(self).medida() < old(self).medida(),
            r matches Err(err) ==> err.linha as int == final(self).linha_spec() && err.encontrado
                == final(self).token_spec(),
            ({
                let ts = old(self).tokens_spec();
                let p = old(self).posicao_spec();
                let t0 = old(self).token_spec();
                expr_atomo(t0) matches Some(ea) ==> (((t0 is Identificador ==> !(token_em(
                    ts,
                    p + 1,
                ) is AbreParentesis)) && para_expressao(token_em(ts, p + 1))) ==> ((r matches Ok(e) && e == ea) && final(self).avancou(ts, p + 1)))
            }),
            ({
                let ts = old(self).tokens_spec();
                let p = old(self).posicao_spec();
                let t0 = old(self).token_spec();
                expr_atomo(t0) matches Some(a0) ==> (expr_atomo(token_em(ts, p + 2)) matches Some(
                    a2,
                ) ==> (operador_binario(token_em(ts, p + 1)) matches Some(op) ==> ((!para_expressao(
                    token_em(ts, p + 1),
                ) && (token_em(ts, p + 2) is Identificador ==> !(token_em(
                    ts,
                    p + 3,
                ) is AbreParentesis)) && para_expressao(token_em(ts, p + 3))) ==> ((r matches Ok(e) && e == binario_de(a0, op, a2)) && final(self).avancou(ts, p + 3)))))
            }),
            ({
                let ts = old(self).tokens_spec();
                let p = old(self).posicao_spec();
                let t0 = old(self).token_spec();
                expr_atomo(t0) matches Some(a0) ==> (expr_atomo(token_em(ts, p + 2)) matches Some(
                    a2,
                ) ==> (expr_atomo(token_em(ts, p + 4)) matches Some(a4) ==> (operador_binario(
                    token_em(ts, p + 1),
                ) matches Some(op1) ==> (operador_binario(token_em(ts, p + 3)) matches Some(
                    op2,
                ) ==> ((!para_expressao(token_em(ts, p + 1)) && nivel_operador(token_em(ts, p + 3))
                    < nivel_operador(token_em(ts, p + 1)) && (token_em(
                    ts,
                    p + 2,
                ) is Identificador ==> !(token_em(ts, p + 3) is AbreParentesis)) && (token_em(
                    ts,
                    p + 4,
                ) is Identificador ==> !(token_em(ts, p + 5) is AbreParentesis)) && para_expressao(
                    token_em(ts, p + 5),
                )) ==> ((r matches Ok(e) && e == binario_de(a0, op1, binario_de(a2, op2, a4))) && final(self).avancou(ts, p + 5)))))))
            }),
                ({
                let ts = old(self).tokens_spec();
                let p = old(self).posicao_spec();
                let t0 = old(self).token_spec();
                expr_atomo(t0) matches Some(a0) ==> (expr_atomo(token_em(ts, p + 2)) matches Some(
                    a2,
                ) ==> (expr_atomo(token_em(ts, p + 4)) matches Some(a4) ==> (operador_binario(
                    token_em(ts, p + 1),
                ) matches Some(op1) ==> (operador_binario(token_em(ts, p + 3)) matches Some(
                    op2,
                ) ==> ((!para_expressao(token_em(ts, p + 1)) && !para_expressao(token_em(ts, p + 3))
                    && nivel_operador(token_em(ts, p + 3)) >= nivel_operador(token_em(ts, p + 1))
                    && (token_em(ts, p + 2) is Identificador ==> !(token_em(
                    ts,
                    p + 3,
                ) is AbreParentesis)) && (token_em(ts, p + 4) is Identificador ==> !(token_em(
                    ts,
                    p + 5,
                ) is AbreParentesis)) && para_expressao(token_em(ts, p + 5))) ==> ((r matches Ok(e) && e
                    == binario_de(binario_de(a0, op1, a2), op2, a4)) && final(self).avancou(ts, p + 5)))))))
            }),
            ({
                let ts = old(self).tokens_spec();
                let p = old(self).posicao_spec();
                let t0 = old(self).token_spec();
                forma_operando(ts, p) matches Some(par) ==> ((t0 == token_em(ts, p) && para_expressao(
                    token_em(ts, p + par.1),
                )) ==> ((r matches Ok(e) && e == par.0) && final(self).avancou(ts, p + par.1)))
            }),
            ({
                let ts = old(self).tokens_spec();
                let p = old(self).posicao_spec();
                let t0 = old(self).token_spec();
                forma_operando(ts, p) matches Some(par0) ==> (forma_operando(
                    ts,
                    p + par0.1 + 1,
                ) matches Some(par1) ==> (operador_binario(token_em(ts, p + par0.1)) matches Some(
                    op,
                ) ==> ((t0 == token_em(ts, p) && !para_expressao(token_em(ts, p + par0.1)) && para_expressao(
                    token_em(ts, p + par0.1 + 1 + par1.1),
                )) ==> ((r matches Ok(e) && e == binario_de(par0.0, op, par1.0)) && final(self).avancou(ts, p + par0.1 + 1 + par1.1)))))
            }),
        decreases old(self).medida(), 3int,
    {
        let ghost ts = self.tokens_spec();
        let ghost p = self.posicao_spec();
        let ghost t0 = self.token_spec();
        let ghost m0 = self.medida();
        let mut expr = match self.parse_termo() {
            Ok(e) => e,
            Err(err) => {
                return Err(err);
            },
        };
        loop
            invariant
                ts == old(self).tokens_spec(),
                p == old(self).posicao_spec(),
                t0 == old(self).token_spec(),
                m0 == old(self).medida(),
                self.bem_formado(),
                self.tokens_spec() == ts,
                self.medida() < m0,
                expr_bem_formada(expr),
                expr_atomo(t0) matches Some(ea) ==> (((t0 is Identificador ==> !(token_em(
                    ts,
                    p + 1,
                ) is AbreParentesis)) && para_expressao(token_em(ts, p + 1))) ==> (expr == ea && self.avancou(ts, p + 1))),
                expr_atomo(t0) matches Some(a0) ==> (expr_atomo(token_em(ts, p + 2)) matches Some(
                    a2,
                ) ==> (operador_binario(token_em(ts, p + 1)) matches Some(op) ==> ((!para_expressao(
                    token_em(ts, p + 1),
                ) && (token_em(ts, p + 2) is Identificador ==> !(token_em(
                    ts,
                    p + 3,
                ) is AbreParentesis)) && para_expressao(token_em(ts, p + 3))) ==> ((para_termo(token_em(ts, p + 1)) && self.avancou(ts, p + 1) && expr == a0) || (self.avancou(ts, p + 3) && expr == binario_de(a0, op, a2)))))),
                expr_atomo(t0) matches Some(a0) ==> (expr_atomo(token_em(ts, p + 2)) matches Some(
                    a2,
                ) ==> (expr_atomo(token_em(ts, p + 4)) matches Some(a4) ==> (operador_binario(
                    token_em(ts, p + 1),
                ) matches Some(op1) ==> (operador_binario(token_em(ts, p + 3)) matches Some(
                    op2,
                ) ==> ((!para_expressao(token_em(ts, p + 1)) && nivel_operador(token_em(ts, p + 3))
                    < nivel_operador(token_em(ts, p + 1)) && (token_em(
                    ts,
                    p + 2,
                ) is Identificador ==> !(token_em(ts, p + 3) is AbreParentesis)) && (token_em(
                    ts,
                    p + 4,
                ) is Identificador ==> !(token_em(ts, p + 5) is AbreParentesis)) && para_expressao(
                    token_em(ts, p + 5),
                )) ==> ((para_termo(token_em(ts, p + 1)) && self.avancou(ts, p + 1) && expr == a0) || (self.avancou(ts, p + 5) && expr == binario_de(a0, op1, binario_de(a2, op2, a4))))))))),
                expr_atomo(t0) matches Some(a0) ==> (expr_atomo(token_em(ts, p + 2)) matches Some(
                    a2,
                ) ==> (expr_atomo(token_em(ts, p + 4)) matches Some(a4) ==> (operador_binario(
                    token_em(ts, p + 1),
                ) matches Some(op1) ==> (operador_binario(token_em(ts, p + 3)) matches Some(
                    op2,
                ) ==> ((!para_expressao(token_em(ts, p + 1)) && !para_expressao(token_em(ts, p + 3))
                    && nivel_operador(token_em(ts, p + 3)) >= nivel_operador(token_em(ts, p + 1))
                    && (token_em(ts, p + 2) is Identificador ==> !(token_em(
                    ts,
                    p + 3,
                ) is AbreParentesis)) && (token_em(ts, p + 4) is Identificador ==> !(token_em(
                    ts,
                    p + 5,
                ) is AbreParentesis)) && para_expressao(token_em(ts, p + 5))) ==> ((para_termo(token_em(ts, p + 1)) && self.avancou(ts, p + 1) && expr == a0) || (
                para_termo(token_em(ts, p + 3)) && self.avancou(ts, p + 3) && expr == binario_de(a0, op1, a2)) || (self.avancou(ts, p + 5) && expr == binario_de(binario_de(a0, op1, a2), op2, a4)))))))),
                forma_operando(ts, p) matches Some(par) ==> ((t0 == token_em(ts, p) && para_expressao(
                    token_em(ts, p + par.1),
                )) ==> (expr == par.0 && self.avancou(ts, p + par.1))),
                forma_operando(ts, p) matches Some(par0) ==> (forma_operando(
                    ts,
                    p + par0.1 + 1,
                ) matches Some(par1) ==> (operador_binario(token_em(ts, p + par0.1)) matches Some(
                    op,
                ) ==> ((t0 == token_em(ts, p) && !para_expressao(token_em(ts, p + par0.1)) && para_expressao(
                    token_em(ts, p + par0.1 + 1 + par1.1),
                )) ==> ((para_termo(token_em(ts, p + par0.1)) && self.avancou(ts, p + par0.1) && expr
                    == par0.0) || (self.avancou(ts, p + par0.1 + 1 + par1.1) && expr == binario_de(
                    par0.0,
                    op,
                    par1.0,
                )))))),
            ensures
                self.bem_formado(),
                self.tokens_spec() == ts,
                self.medida() < m0,
                expr_bem_formada(expr),
                expr_atomo(t0) matches Some(ea) ==> (((t0 is Identificador ==> !(token_em(
                    ts,
                    p + 1,
                ) is AbreParentesis)) && para_expressao(token_em(ts, p + 1))) ==> (expr == ea && self.avancou(ts, p + 1))),
                expr_atomo(t0) matches Some(a0) ==> (expr_atomo(token_em(ts, p + 2)) matches Some(
                    a2,
                ) ==> (operador_binario(token_em(ts, p + 1)) matches Some(op) ==> ((!para_expressao(
                    token_em(ts, p + 1),
                ) && (token_em(ts, p + 2) is Identificador ==> !(token_em(
                    ts,
                    p + 3,
                ) is AbreParentesis)) && para_expressao(token_em(ts, p + 3))) ==> (self.avancou(ts, p + 3) && expr == binario_de(a0, op, a2))))),
                expr_atomo(t0) matches Some(a0) ==> (expr_atomo(token_em(ts, p + 2)) matches Some(
                    a2,
                ) ==> (expr_atomo(token_em(ts, p + 4)) matches Some(a4) ==> (operador_binario(
                    token_em(ts, p + 1),
                ) matches Some(op1) ==> (operador_binario(token_em(ts, p + 3)) matches Some(
                    op2,
                ) ==> ((!para_expressao(token_em(ts, p + 1)) && nivel_operador(token_em(ts, p + 3))
                    < nivel_operador(token_em(ts, p + 1)) && (token_em(
                    ts,
                    p + 2,
                ) is Identificador ==> !(token_em(ts, p + 3) is AbreParentesis)) && (token_em(
                    ts,
                    p + 4,
                ) is Identificador ==> !(token_em(ts, p + 5) is AbreParentesis)) && para_expressao(
                    token_em(ts, p + 5),
                )) ==> (self.avancou(ts, p + 5) && expr == binario_de(a0, op1, binario_de(a2, op2, a4)))))))),
                expr_atomo(t0) matches Some(a0) ==> (expr_atomo(token_em(ts, p + 2)) matches Some(
                    a2,
                ) ==> (expr_atomo(token_em(ts, p + 4)) matches Some(a4) ==> (operador_binario(
                    token_em(ts, p + 1),
                ) matches Some(op1) ==> (operador_binario(token_em(ts, p + 3)) matches Some(
                    op2,
                ) ==> ((!para_expressao(token_em(ts, p + 1)) && !para_expressao(token_em(ts, p + 3))
                    && nivel_operador(token_em(ts, p + 3)) >= nivel_operador(token_em(ts, p + 1))
                    && (token_em(ts, p + 2) is Identificador ==> !(token_em(
                    ts,
                    p + 3,
                ) is AbreParentesis)) && (token_em(ts, p + 4) is Identificador ==> !(token_em(
                    ts,
                    p + 5,
                ) is AbreParentesis)) && para_expressao(token_em(ts, p + 5))) ==> (self.avancou(ts, p + 5) && expr == binario_de(binario_de(a0, op1, a2), op2, a4))))))),
                forma_operando(ts, p) matches Some(par) ==> ((t0 == token_em(ts, p) && para_expressao(
                    token_em(ts, p + par.1),
                )) ==> (expr == par.0 && self.avancou(ts, p + par.1))),
                forma_operando(ts, p) matches Some(par0) ==> (forma_operando(
                    ts,
                    p + par0.1 + 1,
                ) matches Some(par1) ==> (operador_binario(token_em(ts, p + par0.1)) matches Some(
                    op,
                ) ==> ((t0 == token_em(ts, p) && !para_expressao(token_em(ts, p + par0.1)) && para_expressao(
                    token_em(ts, p + par0.1 + 1 + par1.1),
                )) ==> (self.avancou(ts, p + par0.1 + 1 + par1.1) && expr == binario_de(par0.0, op, par1.0))))),
            decreases self.medida(),
        {
            let operador = match &self.token_atual {
                Token::Mais => Operador::Mais,
                Token::Menos => Operador::Menos,
                _ => {
                    break ;
                },
            };
            self.avancar();
            let direita = match self.parse_termo() {
                Ok(e) => e,
                Err(err) => {
                    return Err(err);
                },
            };
            expr = Expr::Binario { esquerda: Box::new(expr), operador, direita: Box::new(direita) };
        }
        Ok(expr)
    }

    /// The shift level: `<<` and `>>` over additive expressions, left associative.
    /// One of this cascade's binary operators joining lone operands before a
    /// full stop owes the one binary node; a tighter operator on the right
    /// nests first.
    pub fn parse_shift(&mut self) -> (r: Result<Expr, ErroParse>)
        requires
            old(self).bem_formado(),
        ensures
            final(self).bem_formado(),
            final(self).tokens_spec() == old(self).tokens_spec(),
            final(self).medida() <= old(self).medida(),
            r matches Ok(e) ==> expr_bem_formada(e) && final(self).medida() < old(self).medida(),
            r matches Err(err) ==> err.linha as int == final(self).linha_spec() && err.encontrado
                == final(self).token_spec(),
            ({
                let ts = old(self).tokens_spec();
                let p = old(self).posicao_spec();
                let t0 = old(self).token_spec();
                expr_atomo(t0) matches Some(ea) ==> (((t0 is Identificador ==> !(token_em(
                    ts,
                    p + 1,
                ) is AbreParentesis)) && para_shift(token_em(ts, p + 1))) ==> ((r matches Ok(e) && e == ea) && final(self).avancou(ts, p + 1)))
            }),
            ({
                let ts = old(self).tokens_spec();
                let p = old(self).posicao_spec();
                let t0 = old(self).token_spec();
                expr_atomo(t0) matches Some(a0) ==> (expr_atomo(token_em(ts, p + 2)) matches Some(
                    a2,
                ) ==> (operador_binario(token_em(ts, p + 1)) matches Some(op) ==> ((!para_shift(
                    token_em(ts, p + 1),
                ) && (token_em(ts, p + 2) is Identificador ==> !(token_em(
                    ts,
                    p + 3,
                ) is AbreParentesis)) && para_shift(token_em(ts, p + 3))) ==> ((r matches Ok(e) && e == binario_de(a0, op, a2)) && final(self).avancou(ts, p + 3)))))
            }),
            ({
                let ts = old(self).tokens_spec();
                let p = old(self).posicao_spec();
                let t0 = old(self).token_spec();
                expr_atomo(t0) matches Some(a0) ==> (expr_atomo(token_em(ts, p + 2)) matches Some(
                    a2,
                ) ==> (expr_atomo(token_em(ts, p + 4)) matches Some(a4) ==> (operador_binario(
                    token_em(ts, p + 1),
                ) matches Some(op1) ==> (operador_binario(token_em(ts, p + 3)) matches Some(
                    op2,
                ) ==> ((!para_shift(token_em(ts, p + 1)) && nivel_operador(token_em(ts, p + 3))
                    < nivel_operador(token_em(ts, p + 1)) && (token_em(
                    ts,
                    p + 2,
                ) is Identificador ==> !(token_em(ts, p + 3) is AbreParentesis)) && (token_em(
                    ts,
                    p + 4,
                ) is Identificador ==> !(token_em(ts, p + 5) is AbreParentesis)) && para_shift(
                    token_em(ts, p + 5),
                )) ==> ((r matches Ok(e) && e == binario_de(a0, op1, binario_de(a2, op2, a4))) && final(self).avancou(ts, p + 5)))))))
            }),
                ({
                let ts = old(self).tokens_spec();
                let p = old(self).posicao_spec();
                let t0 = old(self).token_spec();
                expr_atomo(t0) matches Some(a0) ==> (expr_atomo(token_em(ts, p + 2)) matches Some(
                    a2,
                ) ==> (expr_atomo(token_em(ts, p + 4)) matches Some(a4) ==> (operador_binario(
                    token_em(ts, p + 1),
                ) matches Some(op1) ==> (operador_binario(token_em(ts, p + 3)) matches Some(
                    op2,
                ) ==> ((!para_shift(token_em(ts, p + 1)) && !para_shift(token_em(ts, p + 3))
                    && nivel_operador(token_em(ts, p + 3)) >= nivel_operador(token_em(ts, p + 1))
                    && (token_em(ts, p + 2) is Identificador ==> !(token_em(
                    ts,
                    p + 3,
                ) is AbreParentesis)) && (token_em(ts, p + 4) is Identificador ==> !(token_em(
                    ts,
                    p + 5,
                ) is AbreParentesis)) && para_shift(token_em(ts, p + 5))) ==> ((r matches Ok(e) && e
                    == binario_de(binario_de(a0, op1, a2), op2, a4)) && final(self).avancou(ts, p + 5)))))))
            }),
            ({
                let ts = old(self).tokens_spec();
                let p = old(self).posicao_spec();
                let t0 = old(self).token_spec();
                forma_operando(ts, p) matches Some(par) ==> ((t0 == token_em(ts, p) && para_shift(
                    token_em(ts, p + par.1),
                )) ==> ((r matches Ok(e) && e == par.0) && final(self).avancou(ts, p + par.1)))
            }),
            ({
                let ts = old(self).tokens_spec();
                let p = old(self).posicao_spec();
                let t0 = old(self).token_spec();
                forma_operando(ts, p) matches Some(par0) ==> (forma_operando(
                    ts,
                    p + par0.1 + 1,
                ) matches Some(par1) ==> (operador_binario(token_em(ts, p + par0.1)) matches Some(
                    op,
                ) ==> ((t0 == token_em(ts, p) && !para_shift(token_em(ts, p + par0.1)) && para_shift(
                    token_em(ts, p + par0.1 + 1 + par1.1),
                )) ==> ((r matches Ok(e) && e == binario_de(par0.0, op, par1.0)) && final(self).avancou(ts, p + par0.1 + 1 + par1.1)))))
            }),
        decreases old(self).medida(), 4int,
    {
        let ghost ts = self.tokens_spec();
        let ghost p = self.posicao_spec();
        let ghost t0 = self.token_spec();
        let ghost m0 = self.medida();
        let mut expr = match self.parse_expressao() {
            Ok(e) => e,
            Err(err) => {
                return Err(err);
            },
        };
        loop
            invariant
                ts == old(self).tokens_spec(),
                p == old(self).posicao_spec(),
                t0 == old(self).token_spec(),
                m0 == old(self).medida(),
                self.bem_formado(),
                self.tokens_spec() == ts,
                self.medida() < m0,
                expr_bem_formada(expr),
                expr_atomo(t0) matches Some(ea) ==> (((t0 is Identificador ==> !(token_em(
                    ts,
                    p + 1,
                ) is AbreParentesis)) && para_shift(token_em(ts, p + 1))) ==> (expr == ea && self.avancou(ts, p + 1))),
                expr_atomo(t0) matches Some(a0) ==> (expr_atomo(token_em(ts, p + 2)) matches Some(
                    a2,
                ) ==> (operador_binario(token_em(ts, p + 1)) matches Some(op) ==> ((!para_shift(
                    token_em(ts, p + 1),
                ) && (token_em(ts, p + 2) is Identificador ==> !(token_em(
                    ts,
                    p + 3,
                ) is AbreParentesis)) && para_shift(token_em(ts, p + 3))) ==> ((para_expressao(token_em(ts, p + 1)) && self.avancou(ts, p + 1) && expr == a0) || (self.avancou(ts, p + 3) && expr == binario_de(a0, op, a2)))))),
                expr_atomo(t0) matches Some(a0) ==> (expr_atomo(token_em(ts, p + 2)) matches Some(
                    a2,
                ) ==> (expr_atomo(token_em(ts, p + 4)) matches Some(a4) ==> (operador_binario(
                    token_em(ts, p + 1),
                ) matches Some(op1) ==> (operador_binario(token_em(ts, p + 3)) matches Some(
                    op2,
                ) ==> ((!para_shift(token_em(ts, p + 1)) && nivel_operador(token_em(ts, p + 3))
                    < nivel_operador(token_em(ts, p + 1)) && (token_em(
                    ts,
                    p + 2,
                ) is Identificador ==> !(token_em(ts, p + 3) is AbreParentesis)) && (token_em(
                    ts,
                    p + 4,
                ) is Identificador ==> !(token_em(ts, p + 5) is AbreParentesis)) && para_shift(
                    token_em(ts, p + 5),
                )) ==> ((para_expressao(token_em(ts, p + 1)) && self.avancou(ts, p + 1) && expr == a0) || (self.avancou(ts, p + 5) && expr == binario_de(a0, op1, binario_de(a2, op2, a4))))))))),
                expr_atomo(t0) matches Some(a0) ==> (expr_atomo(token_em(ts, p + 2)) matches Some(
                    a2,
                ) ==> (expr_atomo(token_em(ts, p + 4)) matches Some(a4) ==> (operador_binario(
                    token_em(ts, p + 1),
                ) matches Some(op1) ==> (operador_binario(token_em(ts, p + 3)) matches Some(
                    op2,
                ) ==> ((!para_shift(token_em(ts, p + 1)) && !para_shift(token_em(ts, p + 3))
                    && nivel_operador(token_em(ts, p + 3)) >= nivel_operador(token_em(ts, p + 1))
                    && (token_em(ts, p + 2) is Identificador ==> !(token_em(
                    ts,
                    p + 3,
                ) is AbreParentesis)) && (token_em(ts, p + 4) is Identificador ==> !(token_em(
                    ts,
                    p + 5,
                ) is AbreParentesis)) && para_shift(token_em(ts, p + 5))) ==> ((para_expressao(token_em(ts, p + 1)) && self.avancou(ts, p + 1) && expr == a0) || (
                para_expressao(token_em(ts, p + 3)) && self.avancou(ts, p + 3) && expr == binario_de(a0, op1, a2)) || (self.avancou(ts, p + 5) && expr == binario_de(binario_de(a0, op1, a2), op2, a4)))))))),
                forma_operando(ts, p) matches Some(par) ==> ((t0 == token_em(ts, p) && para_shift(
                    token_em(ts, p + par.1),
                )) ==> (expr == par.0 && self.avancou(ts, p + par.1))),
                forma_operando(ts, p) matches Some(par0) ==> (forma_operando(
                    ts,
                    p + par0.1 + 1,
                ) matches Some(par1) ==> (operador_binario(token_em(ts, p + par0.1)) matches Some(
                    op,
                ) ==> ((t0 == token_em(ts, p) && !para_shift(token_em(ts, p + par0.1)) && para_shift(
                    token_em(ts, p + par0.1 + 1 + par1.1),
                )) ==> ((para_expressao(token_em(ts, p + par0.1)) && self.avancou(ts, p + par0.1) && expr
                    == par0.0) || (self.avancou(ts, p + par0.1 + 1 + par1.1) && expr == binario_de(
                    par0.0,
                    op,
                    par1.0,
                )))))),
            ensures
                self.bem_formado(),
                self.tokens_spec() == ts,
                self.medida() < m0,
                expr_bem_formada(expr),
                expr_atomo(t0) matches Some(ea) ==> (((t0 is Identificador ==> !(token_em(
                    ts,
                    p + 1,
                ) is AbreParentesis)) && para_shift(token_em(ts, p + 1))) ==> (expr == ea && self.avancou(ts, p + 1))),
                expr_atomo(t0) matches Some(a0) ==> (expr_atomo(token_em(ts, p + 2)) matches Some(
                    a2,
                ) ==> (operador_binario(token_em(ts, p + 1)) matches Some(op) ==> ((!para_shift(
                    token_em(ts, p + 1),
                ) && (token_em(ts, p + 2) is Identificador ==> !(token_em(
                    ts,
                    p + 3,
                ) is AbreParentesis)) && para_shift(token_em(ts, p + 3))) ==> (self.avancou(ts, p + 3) && expr == binario_de(a0, op, a2))))),
                expr_atomo(t0) matches Some(a0) ==> (expr_atomo(token_em(ts, p + 2)) matches Some(
                    a2,
                ) ==> (expr_atomo(token_em(ts, p + 4)) matches Some(a4) ==> (operador_binario(
                    token_em(ts, p + 1),
                ) matches Some(op1) ==> (operador_binario(token_em(ts, p + 3)) matches Some(
                    op2,
                ) ==> ((!para_shift(token_em(ts, p + 1)) && nivel_operador(token_em(ts, p + 3))
                    < nivel_operador(token_em(ts, p + 1)) && (token_em(
                    ts,
                    p + 2,
                ) is Identificador ==> !(token_em(ts, p + 3) is AbreParentesis)) && (token_em(
                    ts,
                    p + 4,
                ) is Identificador ==> !(token_em(ts, p + 5) is AbreParentesis)) && para_shift(
                    token_em(ts, p + 5),
                )) ==> (self.avancou(ts, p + 5) && expr == binario_de(a0, op1, binario_de(a2, op2, a4)))))))),
                expr_atomo(t0) matches Some(a0) ==> (expr_atomo(token_em(ts, p + 2)) matches Some(
                    a2,
                ) ==> (expr_atomo(token_em(ts, p + 4)) matches Some(a4) ==> (operador_binario(
                    token_em(ts, p + 1),
                ) matches Some(op1) ==> (operador_binario(token_em(ts, p + 3)) matches Some(
                    op2,
                ) ==> ((!para_shift(token_em(ts, p + 1)) && !para_shift(token_em(ts, p + 3))
                    && nivel_operador(token_em(ts, p + 3)) >= nivel_operador(token_em(ts, p + 1))
                    && (token_em(ts, p + 2) is Identificador ==> !(token_em(
                    ts,
                    p + 3,
                ) is AbreParentesis)) && (token_em(ts, p + 4) is Identificador ==> !(token_em(
                    ts,
                    p + 5,
                ) is AbreParentesis)) && para_shift(token_em(ts, p + 5))) ==> (self.avancou(ts, p + 5) && expr == binario_de(binario_de(a0, op1, a2), op2, a4))))))),
                forma_operando(ts, p) matches Some(par) ==> ((t0 == token_em(ts, p) && para_shift(
                    token_em(ts, p + par.1),
                )) ==> (expr == par.0 && self.avancou(ts, p + par.1))),
                forma_operando(ts, p) matches Some(par0) ==> (forma_operando(
                    ts,
                    p + par0.1 + 1,
                ) matches Some(par1) ==> (operador_binario(token_em(ts, p + par0.1)) matches Some(
                    op,
                ) ==> ((t0 == token_em(ts, p) && !para_shift(token_em(ts, p + par0.1)) && para_shift(
                    token_em(ts, p + par0.1 + 1 + par1.1),
                )) ==> (self.avancou(ts, p + par0.1 + 1 + par1.1) && expr == binario_de(par0.0, op, par1.0))))),
            decreases self.medida(),
        {
            let operador = match &self.token_atual {
                Token::DeslocamentoEsq => Operador::DeslocamentoEsq,
                Token::DeslocamentoDir => Operador::DeslocamentoDir,
                _ => {
                    break ;
                },
            };
            self.avancar();
            let direita = match self.parse_expressao() {
                Ok(e) => e,
                Err(err) => {
                    return Err(err);
                },
            };
            expr = Expr::Binario { esquerda: Box::new(expr), operador, direita: Box::new(direita) };
        }
        Ok(expr)
    }

    /// The equality and relational level, over shift expressions, left associative.
    /// One of this cascade's binary operators joining lone operands before a
    /// full stop owes the one binary node; a tighter operator on the right
    /// nests first.
    pub fn parse_comparacao(&mut self) -> (r: Result<Expr, ErroParse>)
        requires
            old(self).bem_formado(),
        ensures
            final(self).bem_formado(),
            final(self).tokens_spec() == old(self).tokens_spec(),
            final(self).medida() <= old(self).medida(),
            r matches Ok(e) ==> expr_bem_formada(e) && final(self).medida() < old(self).medida(),
            r matches Err(err) ==> err.linha as int == final(self).linha_spec() && err.encontrado
                == final(self).token_spec(),
            ({
                let ts = old(self).tokens_spec();
                let p = old(self).posicao_spec();
                let t0 = old(self).token_spec();
                expr_atomo(t0) matches Some(ea) ==> (((t0 is Identificador ==> !(token_em(
                    ts,
                    p + 1,
                ) is AbreParentesis)) && para_comparacao(token_em(ts, p + 1))) ==> ((r matches Ok(e) && e == ea) && final(self).avancou(ts, p + 1)))
            }),
            ({
                let ts = old(self).tokens_spec();
                let p = old(self).posicao_spec();
                let t0 = old(self).token_spec();
                expr_atomo(t0) matches Some(a0) ==> (expr_atomo(token_em(ts, p + 2)) matches Some(
                    a2,
                ) ==> (operador_binario(token_em(ts, p + 1)) matches Some(op) ==> ((!para_comparacao(
                    token_em(ts, p + 1),
                ) && (token_em(ts, p + 2) is Identificador ==> !(token_em(
                    ts,
                    p + 3,
                ) is AbreParentesis)) && para_comparacao(token_em(ts, p + 3))) ==> ((r matches Ok(e) && e == binario_de(a0, op, a2)) && final(self).avancou(ts, p + 3)))))
            }),
            ({
                let ts = old(self).tokens_spec();
                let p = old(self).posicao_spec();
                let t0 = old(self).token_spec();
                expr_atomo(t0) matches Some(a0) ==> (expr_atomo(token_em(ts, p + 2)) matches Some(
                    a2,
                ) ==> (expr_atomo(token_em(ts, p + 4)) matches Some(a4) ==> (operador_binario(
                    token_em(ts, p + 1),
                ) matches Some(op1) ==> (operador_binario(token_em(ts, p + 3)) matches Some(
                    op2,
                ) ==> ((!para_comparacao(token_em(ts, p + 1)) && nivel_operador(token_em(ts, p + 3))
                    < nivel_operador(token_em(ts, p + 1)) && (token_em(
                    ts,
                    p + 2,
                ) is Identificador ==> !(token_em(ts, p + 3) is AbreParentesis)) && (token_em(
                    ts,
                    p + 4,
                ) is Identificador ==> !(token_em(ts, p + 5) is AbreParentesis)) && para_comparacao(
                    token_em(ts, p + 5),
                )) ==> ((r matches Ok(e) && e == binario_de(a0, op1, binario_de(a2, op2, a4))) && final(self).avancou(ts, p + 5)))))))
            }),
                ({
                let ts = old(self).tokens_spec();
                let p = old(self).posicao_spec();
                let t0 = old(self).token_spec();
                expr_atomo(t0) matches Some(a0) ==> (expr_atomo(token_em(ts, p + 2)) matches Some(
                    a2,
                ) ==> (expr_atomo(token_em(ts, p + 4)) matches Some(a4) ==> (operador_binario(
                    token_em(ts, p + 1),
                ) matches Some(op1) ==> (operador_binario(token_em(ts, p + 3)) matches Some(
                    op2,
                ) ==> ((!para_comparacao(token_em(ts, p + 1)) && !para_comparacao(token_em(ts, p + 3))
                    && nivel_operador(token_em(ts, p + 3)) >= nivel_operador(token_em(ts, p + 1))
                    && (token_em(ts, p + 2) is Identificador ==> !(token_em(
                    ts,
                    p + 3,
                ) is AbreParentesis)) && (token_em(ts, p + 4) is Identificador ==> !(token_em(
                    ts,
                    p + 5,
                ) is AbreParentesis)) && para_comparacao(token_em(ts, p + 5))) ==> ((r matches Ok(e) && e
                    == binario_de(binario_de(a0, op1, a2), op2, a4)) && final(self).avancou(ts, p + 5)))))))
            }),
            ({
                let ts = old(self).tokens_spec();
                let p = old(self).posicao_spec();
                let t0 = old(self).token_spec();
                forma_operando(ts, p) matches Some(par) ==> ((t0 == token_em(ts, p) && para_comparacao(
                    token_em(ts, p + par.1),
                )) ==> ((r matches Ok(e) && e == par.0) && final(self).avancou(ts, p + par.1)))
            }),
            ({
                let ts = old(self).tokens_spec();
                let p = old(self).posicao_spec();
                let t0 = old(self).token_spec();
                forma_operando(ts, p) matches Some(par0) ==> (forma_operando(
                    ts,
                    p + par0.1 + 1,
                ) matches Some(par1) ==> (operador_binario(token_em(ts, p + par0.1)) matches Some(
                    op,
                ) ==> ((t0 == token_em(ts, p) && !para_comparacao(token_em(ts, p + par0.1)) && para_comparacao(
                    token_em(ts, p + par0.1 + 1 + par1.1),
                )) ==> ((r matches Ok(e) && e == binario_de(par0.0, op, par1.0)) && final(self).avancou(ts, p + par0.1 + 1 + par1.1)))))
            }),
        decreases old(self).medida(), 5int,
    {
        let ghost ts = self.tokens_spec();
        let ghost p = self.posicao_spec();
        let ghost t0 = self.token_spec();
        let ghost m0 = self.medida();
        let mut expr = match self.parse_shift() {
            Ok(e) => e,
            Err(err) => {
                return Err(err);
            },
        };
        loop
            invariant
                ts == old(self).tokens_spec(),
                p == old(self).posicao_spec(),
                t0 == old(self).token_spec(),
                m0 == old(self).medida(),
                self.bem_formado(),
                self.tokens_spec() == ts,
                self.medida() < m0,
                expr_bem_formada(expr),
                expr_atomo(t0) matches Some(ea) ==> (((t0 is Identificador ==> !(token_em(
                    ts,
                    p + 1,
                ) is AbreParentesis)) && para_comparacao(token_em(ts, p + 1))) ==> (expr == ea && self.avancou(ts, p + 1))),
                expr_atomo(t0) matches Some(a0) ==> (expr_atomo(token_em(ts, p + 2)) matches Some(
                    a2,
                ) ==> (operador_binario(token_em(ts, p + 1)) matches Some(op) ==> ((!para_comparacao(
                    token_em(ts, p + 1),
                ) && (token_em(ts, p + 2) is Identificador ==> !(token_em(
                    ts,
                    p + 3,
                ) is AbreParentesis)) && para_comparacao(token_em(ts, p + 3))) ==> ((para_shift(token_em(ts, p + 1)) && self.avancou(ts, p + 1) && expr == a0) || (self.avancou(ts, p + 3) && expr == binario_de(a0, op, a2)))))),
                expr_atomo(t0) matches Some(a0) ==> (expr_atomo(token_em(ts, p + 2)) matches Some(
                    a2,
                ) ==> (expr_atomo(token_em(ts, p + 4)) matches Some(a4) ==> (operador_binario(
                    token_em(ts, p + 1),
                ) matches Some(op1) ==> (operador_binario(token_em(ts, p + 3)) matches Some(
                    op2,
                ) ==> ((!para_comparacao(token_em(ts, p + 1)) && nivel_operador(token_em(ts, p + 3))
                    < nivel_operador(token_em(ts, p + 1)) && (token_em(
                    ts,
                    p + 2,
                ) is Identificador ==> !(token_em(ts, p + 3) is AbreParentesis)) && (token_em(
                    ts,
                    p + 4,
                ) is Identificador ==> !(token_em(ts, p + 5) is AbreParentesis)) && para_comparacao(
                    token_em(ts, p + 5),
                )) ==> ((para_shift(token_em(ts, p + 1)) && self.avancou(ts, p + 1) && expr == a0) || (self.avancou(ts, p + 5) && expr == binario_de(a0, op1, binario_de(a2, op2, a4))))))))),
                expr_atomo(t0) matches Some(a0) ==> (expr_atomo(token_em(ts, p + 2)) matches Some(
                    a2,
                ) ==> (expr_atomo(token_em(ts, p + 4)) matches Some(a4) ==> (operador_binario(
                    token_em(ts, p + 1),
                ) matches Some(op1) ==> (operador_binario(token_em(ts, p + 3)) matches Some(
                    op2,
                ) ==> ((!para_comparacao(token_em(ts, p + 1)) && !para_comparacao(token_em(ts, p + 3))
                    && nivel_operador(token_em(ts, p + 3)) >= nivel_operador(token_em(ts, p + 1))
                    && (token_em(ts, p + 2) is Identificador ==> !(token_em(
                    ts,
                    p + 3,
                ) is AbreParentesis)) && (token_em(ts, p + 4) is Identificador ==> !(token_em(
                    ts,
                    p + 5,
                ) is AbreParentesis)) && para_comparacao(token_em(ts, p + 5))) ==> ((para_shift(token_em(ts, p + 1)) && self.avancou(ts, p + 1) && expr == a0) || (
                para_shift(token_em(ts, p + 3)) && self.avancou(ts, p + 3) && expr == binario_de(a0, op1, a2)) || (self.avancou(ts, p + 5) && expr == binario_de(binario_de(a0, op1, a2), op2, a4)))))))),
                forma_operando(ts, p) matches Some(par) ==> ((t0 == token_em(ts, p) && para_comparacao(
                    token_em(ts, p + par.1),
                )) ==> (expr == par.0 && self.avancou(ts, p + par.1))),
                forma_operando(ts, p) matches Some(par0) ==> (forma_operando(
                    ts,
                    p + par0.1 + 1,
                ) matches Some(par1) ==> (operador_binario(token_em(ts, p + par0.1)) matches Some(
                    op,
                ) ==> ((t0 == token_em(ts, p) && !para_comparacao(token_em(ts, p + par0.1)) && para_comparacao(
                    token_em(ts, p + par0.1 + 1 + par1.1),
                )) ==> ((para_shift(token_em(ts, p + par0.1)) && self.avancou(ts, p + par0.1) && expr
                    == par0.0) || (self.avancou(ts, p + par0.1 + 1 + par1.1) && expr == binario_de(
                    par0.0,
                    op,
                    par1.0,
                )))))),
            ensures
                self.bem_formado(),
                self.tokens_spec() == ts,
                self.medida() < m0,
                expr_bem_formada(expr),
                expr_atomo(t0) matches Some(ea) ==> (((t0 is Identificador ==> !(token_em(
                    ts,
                    p + 1,
                ) is AbreParentesis)) && para_comparacao(token_em(ts, p + 1))) ==> (expr == ea && self.avancou(ts, p + 1))),
                expr_atomo(t0) matches Some(a0) ==> (expr_atomo(token_em(ts, p + 2)) matches Some(
                    a2,
                ) ==> (operador_binario(token_em(ts, p + 1)) matches Some(op) ==> ((!para_comparacao(
                    token_em(ts, p + 1),
                ) && (token_em(ts, p + 2) is Identificador ==> !(token_em(
                    ts,
                    p + 3,
                ) is AbreParentesis)) && para_comparacao(token_em(ts, p + 3))) ==> (self.avancou(ts, p + 3) && expr == binario_de(a0, op, a2))))),
                expr_atomo(t0) matches Some(a0) ==> (expr_atomo(token_em(ts, p + 2)) matches Some(
                    a2,
                ) ==> (expr_atomo(token_em(ts, p + 4)) matches Some(a4) ==> (operador_binario(
                    token_em(ts, p + 1),
                ) matches Some(op1) ==> (operador_binario(token_em(ts, p + 3)) matches Some(
                    op2,
                ) ==> ((!para_comparacao(token_em(ts, p + 1)) && nivel_operador(token_em(ts, p + 3))
                    < nivel_operador(token_em(ts, p + 1)) && (token_em(
                    ts,
                    p + 2,
                ) is Identificador ==> !(token_em(ts, p + 3) is AbreParentesis)) && (token_em(
                    ts,
                    p + 4,
                ) is Identificador ==> !(token_em(ts, p + 5) is AbreParentesis)) && para_comparacao(
                    token_em(ts, p + 5),
                )) ==> (self.avancou(ts, p + 5) && expr == binario_de(a0, op1, binario_de(a2, op2, a4)))))))),
                expr_atomo(t0) matches Some(a0) ==> (expr_atomo(token_em(ts, p + 2)) matches Some(
                    a2,
                ) ==> (expr_atomo(token_em(ts, p + 4)) matches Some(a4) ==> (operador_binario(
                    token_em(ts, p + 1),
                ) matches Some(op1) ==> (operador_binario(token_em(ts, p + 3)) matches Some(
                    op2,
                ) ==> ((!para_comparacao(token_em(ts, p + 1)) && !para_comparacao(token_em(ts, p + 3))
                    && nivel_operador(token_em(ts, p + 3)) >= nivel_operador(token_em(ts, p + 1))
                    && (token_em(ts, p + 2) is Identificador ==> !(token_em(
                    ts,
                    p + 3,
                ) is AbreParentesis)) && (token_em(ts, p + 4) is Identificador ==> !(token_em(
                    ts,
                    p + 5,
                ) is AbreParentesis)) && para_comparacao(token_em(ts, p + 5))) ==> (self.avancou(ts, p + 5) && expr == binario_de(binario_de(a0, op1, a2), op2, a4))))))),
                forma_operando(ts, p) matches Some(par) ==> ((t0 == token_em(ts, p) && para_comparacao(
                    token_em(ts, p + par.1),
                )) ==> (expr == par.0 && self.avancou(ts, p + par.1))),
                forma_operando(ts, p) matches Some(par0) ==> (forma_operando(
                    ts,
                    p + par0.1 + 1,
                ) matches Some(par1) ==> (operador_binario(token_em(ts, p + par0.1)) matches Some(
                    op,
                ) ==> ((t0 == token_em(ts, p) && !para_comparacao(token_em(ts, p + par0.1)) && para_comparacao(
                    token_em(ts, p + par0.1 + 1 + par1.1),
                )) ==> (self.avancou(ts, p + par0.1 + 1 + par1.1) && expr == binario_de(par0.0, op, par1.0))))),
            decreases self.medida(),
        {
            let operador = match &self.token_atual {
                Token::Maior => Operador::Maior,
                Token::Menor => Operador::Menor,
                Token::MaiorOuIgual => Operador::MaiorOuIgual,
                Token::MenorOuIgual => Operador::MenorOuIgual,
                Token::Comparar => Operador::Comparar,
                Token::Diferente => Operador::Diferente,
                _ => {
                    break ;
                },
            };
            self.avancar();
            let direita = match self.parse_shift() {
                Ok(e) => e,
                Err(err) => {
                    return Err(err);
                },
            };
            expr = Expr::Binario { esquerda: Box::new(expr), operador, direita: Box::new(direita) };
        }
        Ok(expr)
    }

    /// The bitwise-and level, over comparisons, left associative.
    /// One of this cascade's binary operators joining lone operands before a
    /// full stop owes the one binary node; a tighter operator on the right
    /// nests first.
    pub fn parse_bitwise_and(&mut self) -> (r: Result<Expr, ErroParse>)
        requires
            old(self).bem_formado(),
        ensures
            final(self).bem_formado(),
            final(self).tokens_spec() == old(self).tokens_spec(),
            final(self).medida() <= old(self).medida(),
            r matches Ok(e) ==> expr_bem_formada(e) && final(self).medida() < old(self).medida(),
            r matches Err(err) ==> err.linha as int == final(self).linha_spec() && err.encontrado
                == final(self).token_spec(),
            ({
                let ts = old(self).tokens_spec();
                let p = old(self).posicao_spec();
                let t0 = old(self).token_spec();
                expr_atomo(t0) matches Some(ea) ==> (((t0 is Identificador ==> !(token_em(
                    ts,
                    p + 1,
                ) is AbreParentesis)) && para_bitwise_and(token_em(ts, p + 1))) ==> ((r matches Ok(e) && e == ea) && final(self).avancou(ts, p + 1)))
            }),
            ({
                let ts = old(self).tokens_spec();
                let p = old(self).posicao_spec();
                let t0 = old(self).token_spec();
                expr_atomo(t0) matches Some(a0) ==> (expr_atomo(token_em(ts, p + 2)) matches Some(
                    a2,
                ) ==> (operador_binario(token_em(ts, p + 1)) matches Some(op) ==> ((!para_bitwise_and(
                    token_em(ts, p + 1),
                ) && (token_em(ts, p + 2) is Identificador ==> !(token_em(
                    ts,
                    p + 3,
                ) is AbreParentesis)) && para_bitwise_and(token_em(ts, p + 3))) ==> ((r matches Ok(e) && e == binario_de(a0, op, a2)) && final(self).avancou(ts, p + 3)))))
            }),
            ({
                let ts = old(self).tokens_spec();
                let p = old(self).posicao_spec();
                let t0 = old(self).token_spec();
                expr_atomo(t0) matches Some(a0) ==> (expr_atomo(token_em(ts, p + 2)) matches Some(
                    a2,
                ) ==> (expr_atomo(token_em(ts, p + 4)) matches Some(a4) ==> (operador_binario(
                    token_em(ts, p + 1),
                ) matches Some(op1) ==> (operador_binario(token_em(ts, p + 3)) matches Some(
                    op2,
                ) ==> ((!para_bitwise_and(token_em(ts, p + 1)) && nivel_operador(token_em(ts, p + 3))
                    < nivel_operador(token_em(ts, p + 1)) && (token_em(
                    ts,
                    p + 2,
                ) is Identificador ==> !(token_em(ts, p + 3) is AbreParentesis)) && (token_em(
                    ts,
                    p + 4,
                ) is Identificador ==> !(token_em(ts, p + 5) is AbreParentesis)) && para_bitwise_and(
                    token_em(ts, p + 5),
                )) ==> ((r matches Ok(e) && e == binario_de(a0, op1, binario_de(a2, op2, a4))) && final(self).avancou(ts, p + 5)))))))
            }),
                ({
                let ts = old(self).tokens_spec();
                let p = old(self).posicao_spec();
                let t0 = old(self).token_spec();
                expr_atomo(t0) matches Some(a0) ==> (expr_atomo(token_em(ts, p + 2)) matches Some(
                    a2,
                ) ==> (expr_atomo(token_em(ts, p + 4)) matches Some(a4) ==> (operador_binario(
                    token_em(ts, p + 1),
                ) matches Some(op1) ==> (operador_binario(token_em(ts, p + 3)) matches Some(
                    op2,
                ) ==> ((!para_bitwise_and(token_em(ts, p + 1)) && !para_bitwise_and(token_em(ts, p + 3))
                    && nivel_operador(token_em(ts, p + 3)) >= nivel_operador(token_em(ts, p + 1))
                    && (token_em(ts, p + 2) is Identificador ==> !(token_em(
                    ts,
                    p + 3,
                ) is AbreParentesis)) && (token_em(ts, p + 4) is Identificador ==> !(token_em(
                    ts,
                    p + 5,
                ) is AbreParentesis)) && para_bitwise_and(token_em(ts, p + 5))) ==> ((r matches Ok(e) && e
                    == binario_de(binario_de(a0, op1, a2), op2, a4)) && final(self).avancou(ts, p + 5)))))))
            }),
            ({
                let ts = old(self).tokens_spec();
                let p = old(self).posicao_spec();
                let t0 = old(self).token_spec();
                forma_operando(ts, p) matches Some(par) ==> ((t0 == token_em(ts, p) && para_bitwise_and(
                    token_em(ts, p + par.1),
                )) ==> ((r matches Ok(e) && e == par.0) && final(self).avancou(ts, p + par.1)))
            }),
            ({
                let ts = old(self).tokens_spec();
                let p = old(self).posicao_spec();
                let t0 = old(self).token_spec();
                forma_operando(ts, p) matches Some(par0) ==> (forma_operando(
                    ts,
                    p + par0.1 + 1,
                ) matches Some(par1) ==> (operador_binario(token_em(ts, p + par0.1)) matches Some(
                    op,
                ) ==> ((t0 == token_em(ts, p) && !para_bitwise_and(token_em(ts, p + par0.1)) && para_bitwise_and(
                    token_em(ts, p + par0.1 + 1 + par1.1),
                )) ==> ((r matches Ok(e) && e == binario_de(par0.0, op, par1.0)) && final(self).avancou(ts, p + par0.1 + 1 + par1.1)))))
            }),
        decreases old(self).medida(), 6int,
    {
        let ghost ts = self.tokens_spec();
        let ghost p = self.posicao_spec();
        let ghost t0 = self.token_spec();
        let ghost m0 = self.medida();
        let mut expr = match self.parse_comparacao() {
            Ok(e) => e,
            Err(err) => {
                return Err(err);
            },
        };
        loop
            invariant
                ts == old(self).tokens_spec(),
                p == old(self).posicao_spec(),
                t0 == old(self).token_spec(),
                m0 == old(self).medida(),
                self.bem_formado(),
                self.tokens_spec() == ts,
                self.medida() < m0,
                expr_bem_formada(expr),
                expr_atomo(t0) matches Some(ea) ==> (((t0 is Identificador ==> !(token_em(
                    ts,
                    p + 1,
                ) is AbreParentesis)) && para_bitwise_and(token_em(ts, p + 1))) ==> (expr == ea && self.avancou(ts, p + 1))),
                expr_atomo(t0) matches Some(a0) ==> (expr_atomo(token_em(ts, p + 2)) matches Some(
                    a2,
                ) ==> (operador_binario(token_em(ts, p + 1)) matches Some(op) ==> ((!para_bitwise_and(
                    token_em(ts, p + 1),
                ) && (token_em(ts, p + 2) is Identificador ==> !(token_em(
                    ts,
                    p + 3,
                ) is AbreParentesis)) && para_bitwise_and(token_em(ts, p + 3))) ==> ((para_comparacao(token_em(ts, p + 1)) && self.avancou(ts, p + 1) && expr == a0) || (self.avancou(ts, p + 3) && expr == binario_de(a0, op, a2)))))),
                expr_atomo(t0) matches Some(a0) ==> (expr_atomo(token_em(ts, p + 2)) matches Some(
                    a2,
                ) ==> (expr_atomo(token_em(ts, p + 4)) matches Some(a4) ==> (operador_binario(
                    token_em(ts, p + 1),
                ) matches Some(op1) ==> (operador_binario(token_em(ts, p + 3)) matches Some(
                    op2,
                ) ==> ((!para_bitwise_and(token_em(ts, p + 1)) && nivel_operador(token_em(ts, p + 3))
                    < nivel_operador(token_em(ts, p + 1)) && (token_em(
                    ts,
                    p + 2,
                ) is Identificador ==> !(token_em(ts, p + 3) is AbreParentesis)) && (token_em(
                    ts,
                    p + 4,
                ) is Identificador ==> !(token_em(ts, p + 5) is AbreParentesis)) && para_bitwise_and(
                    token_em(ts, p + 5),
                )) ==> ((para_comparacao(token_em(ts, p + 1)) && self.avancou(ts, p + 1) && expr == a0) || (self.avancou(ts, p + 5) && expr == binario_de(a0, op1, binario_de(a2, op2, a4))))))))),
                expr_atomo(t0) matches Some(a0) ==> (expr_atomo(token_em(ts, p + 2)) matches Some(
                    a2,
                ) ==> (expr_atomo(token_em(ts, p + 4)) matches Some(a4) ==> (operador_binario(
                    token_em(ts, p + 1),
                ) matches Some(op1) ==> (operador_binario(token_em(ts, p + 3)) matches Some(
                    op2,
                ) ==> ((!para_bitwise_and(token_em(ts, p + 1)) && !para_bitwise_and(token_em(ts, p + 3))
                    && nivel_operador(token_em(ts, p + 3)) >= nivel_operador(token_em(ts, p + 1))
                    && (token_em(ts, p + 2) is Identificador ==> !(token_em(
                    ts,
                    p + 3,
                ) is AbreParentesis)) && (token_em(ts, p + 4) is Identificador ==> !(token_em(
                    ts,
                    p + 5,
                ) is AbreParentesis)) && para_bitwise_and(token_em(ts, p + 5))) ==> ((para_comparacao(token_em(ts, p + 1)) && self.avancou(ts, p + 1) && expr == a0) || (
                para_comparacao(token_em(ts, p + 3)) && self.avancou(ts, p + 3) && expr == binario_de(a0, op1, a2)) || (self.avancou(ts, p + 5) && expr == binario_de(binario_de(a0, op1, a2), op2, a4)))))))),
                forma_operando(ts, p) matches Some(par) ==> ((t0 == token_em(ts, p) && para_bitwise_and(
                    token_em(ts, p + par.1),
                )) ==> (expr == par.0 && self.avancou(ts, p + par.1))),
                forma_operando(ts, p) matches Some(par0) ==> (forma_operando(
                    ts,
                    p + par0.1 + 1,
                ) matches Some(par1) ==> (operador_binario(token_em(ts, p + par0.1)) matches Some(
                    op,
                ) ==> ((t0 == token_em(ts, p) && !para_bitwise_and(token_em(ts, p + par0.1)) && para_bitwise_and(
                    token_em(ts, p + par0.1 + 1 + par1.1),
                )) ==> ((para_comparacao(token_em(ts, p + par0.1)) && self.avancou(ts, p + par0.1) && expr
                    == par0.0) || (self.avancou(ts, p + par0.1 + 1 + par1.1) && expr == binario_de(
                    par0.0,
                    op,
                    par1.0,
                )))))),
            ensures
                self.bem_formado(),
                self.tokens_spec() == ts,
                self.medida() < m0,
                expr_bem_formada(expr),
                expr_atomo(t0) matches Some(ea) ==> (((t0 is Identificador ==> !(token_em(
                    ts,
                    p + 1,
                ) is AbreParentesis)) && para_bitwise_and(token_em(ts, p + 1))) ==> (expr == ea && self.avancou(ts, p + 1))),
                expr_atomo(t0) matches Some(a0) ==> (expr_atomo(token_em(ts, p + 2)) matches Some(
                    a2,
                ) ==> (operador_binario(token_em(ts, p + 1)) matches Some(op) ==> ((!para_bitwise_and(
                    token_em(ts, p + 1),
                ) && (token_em(ts, p + 2) is Identificador ==> !(token_em(
                    ts,
                    p + 3,
                ) is AbreParentesis)) && para_bitwise_and(token_em(ts, p + 3))) ==> (self.avancou(ts, p + 3) && expr == binario_de(a0, op, a2))))),
                expr_atomo(t0) matches Some(a0) ==> (expr_atomo(token_em(ts, p + 2)) matches Some(
                    a2,
                ) ==> (expr_atomo(token_em(ts, p + 4)) matches Some(a4) ==> (operador_binario(
                    token_em(ts, p + 1),
                ) matches Some(op1) ==> (operador_binario(token_em(ts, p + 3)) matches Some(
                    op2,
                ) ==> ((!para_bitwise_and(token_em(ts, p + 1)) && nivel_operador(token_em(ts, p + 3))
                    < nivel_operador(token_em(ts, p + 1)) && (token_em(
                    ts,
                    p + 2,
                ) is Identificador ==> !(token_em(ts, p + 3) is AbreParentesis)) && (token_em(
                    ts,
                    p + 4,
                ) is Identificador ==> !(token_em(ts, p + 5) is AbreParentesis)) && para_bitwise_and(
                    token_em(ts, p + 5),
                )) ==> (self.avancou(ts, p + 5) && expr == binario_de(a0, op1, binario_de(a2, op2, a4)))))))),
                expr_atomo(t0) matches Some(a0) ==> (expr_atomo(token_em(ts, p + 2)) matches Some(
                    a2,
                ) ==> (expr_atomo(token_em(ts, p + 4)) matches Some(a4) ==> (operador_binario(
                    token_em(ts, p + 1),
                ) matches Some(op1) ==> (operador_binario(token_em(ts, p + 3)) matches Some(
                    op2,
                ) ==> ((!para_bitwise_and(token_em(ts, p + 1)) && !para_bitwise_and(token_em(ts, p + 3))
                    && nivel_operador(token_em(ts, p + 3)) >= nivel_operador(token_em(ts, p + 1))
                    && (token_em(ts, p + 2) is Identificador ==> !(token_em(
                    ts,
                    p + 3,
                ) is AbreParentesis)) && (token_em(ts, p + 4) is Identificador ==> !(token_em(
                    ts,
                    p + 5,
                ) is AbreParentesis)) && para_bitwise_and(token_em(ts, p + 5))) ==> (self.avancou(ts, p + 5) && expr == binario_de(binario_de(a0, op1, a2), op2, a4))))))),
                forma_operando(ts, p) matches Some(par) ==> ((t0 == token_em(ts, p) && para_bitwise_and(
                    token_em(ts, p + par.1),
                )) ==> (expr == par.0 && self.avancou(ts, p + par.1))),
                forma_operando(ts, p) matches Some(par0) ==> (forma_operando(
                    ts,
                    p + par0.1 + 1,
                ) matches Some(par1) ==> (operador_binario(token_em(ts, p + par0.1)) matches Some(
                    op,
                ) ==> ((t0 == token_em(ts, p) && !para_bitwise_and(token_em(ts, p + par0.1)) && para_bitwise_and(
                    token_em(ts, p + par0.1 + 1 + par1.1),
                )) ==> (self.avancou(ts, p + par0.1 + 1 + par1.1) && expr == binario_de(par0.0, op, par1.0))))),
            decreases self.medida(),
        {
            let operador = match &self.token_atual {
                Token::EComercial => Operador::EComercial,
                _ => {
                    break ;
                },
            };
            self.avancar();
            let direita = match self.parse_comparacao() {
                Ok(e) => e,
                Err(err) => {
                    return Err(err);
                },
            };
            expr = Expr::Binario { esquerda: Box::new(expr), operador, direita: Box::new(direita) };
        }
        Ok(expr)
    }

    /// The bitwise-or level, over bitwise-and expressions, left associative.
    /// One of this cascade's binary operators joining lone operands before a
    /// full stop owes the one binary node; a tighter operator on the right
    /// nests first.
    pub fn parse_bitwise_or(&mut self) -> (r: Result<Expr, ErroParse>)
        requires
            old(self).bem_formado(),
        ensures
            final(self).bem_formado(),
            final(self).tokens_spec() == old(self).tokens_spec(),
            final(self).medida() <= old(self).medida(),
            r matches Ok(e) ==> expr_bem_formada(e) && final(self).medida() < old(self).medida(),
            r matches Err(err) ==> err.linha as int == final(self).linha_spec() && err.encontrado
                == final(self).token_spec(),
            ({
                let ts = old(self).tokens_spec();
                let p = old(self).posicao_spec();
                let t0 = old(self).token_spec();
                expr_atomo(t0) matches Some(ea) ==> (((t0 is Identificador ==> !(token_em(
                    ts,
                    p + 1,
                ) is AbreParentesis)) && para_bitwise_or(token_em(ts, p + 1))) ==> ((r matches Ok(e) && e == ea) && final(self).avancou(ts, p + 1)))
            }),
            ({
                let ts = old(self).tokens_spec();
                let p = old(self).posicao_spec();
                let t0 = old(self).token_spec();
                expr_atomo(t0) matches Some(a0) ==> (expr_atomo(token_em(ts, p + 2)) matches Some(
                    a2,
                ) ==> (operador_binario(token_em(ts, p + 1)) matches Some(op) ==> ((!para_bitwise_or(
                    token_em(ts, p + 1),
                ) && (token_em(ts, p + 2) is Identificador ==> !(token_em(
                    ts,
                    p + 3,
                ) is AbreParentesis)) && para_bitwise_or(token_em(ts, p + 3))) ==> ((r matches Ok(e) && e == binario_de(a0, op, a2)) && final(self).avancou(ts, p + 3)))))
            }),
            ({
                let ts = old(self).tokens_spec();
                let p = old(self).posicao_spec();
                let t0 = old(self).token_spec();
                expr_atomo(t0) matches Some(a0) ==> (expr_atomo(token_em(ts, p + 2)) matches Some(
                    a2,
                ) ==> (expr_atomo(token_em(ts, p + 4)) matches Some(a4) ==> (operador_binario(
                    token_em(ts, p + 1),
                ) matches Some(op1) ==> (operador_binario(token_em(ts, p + 3)) matches Some(
                    op2,
                ) ==> ((!para_bitwise_or(token_em(ts, p + 1)) && nivel_operador(token_em(ts, p + 3))
                    < nivel_operador(token_em(ts, p + 1)) && (token_em(
                    ts,
                    p + 2,
                ) is Identificador ==> !(token_em(ts, p + 3) is AbreParentesis)) && (token_em(
                    ts,
                    p + 4,
                ) is Identificador ==> !(token_em(ts, p + 5) is AbreParentesis)) && para_bitwise_or(
                    token_em(ts, p + 5),
                )) ==> ((r matches Ok(e) && e == binario_de(a0, op1, binario_de(a2, op2, a4))) && final(self).avancou(ts, p + 5)))))))
            }),
                ({
                let ts = old(self).tokens_spec();
                let p = old(self).posicao_spec();
                let t0 = old(self).token_spec();
                expr_atomo(t0) matches Some(a0) ==> (expr_atomo(token_em(ts, p + 2)) matches Some(
                    a2,
                ) ==> (expr_atomo(token_em(ts, p + 4)) matches Some(a4) ==> (operador_binario(
                    token_em(ts, p + 1),
                ) matches Some(op1) ==> (operador_binario(token_em(ts, p + 3)) matches Some(
                    op2,
                ) ==> ((!para_bitwise_or(token_em(ts, p + 1)) && !para_bitwise_or(token_em(ts, p + 3))
                    && nivel_operador(token_em(ts, p + 3)) >= nivel_operador(token_em(ts, p + 1))
                    && (token_em(ts, p + 2) is Identificador ==> !(token_em(
                    ts,
                    p + 3,
                ) is AbreParentesis)) && (token_em(ts, p + 4) is Identificador ==> !(token_em(
                    ts,
                    p + 5,
                ) is AbreParentesis)) && para_bitwise_or(token_em(ts, p + 5))) ==> ((r matches Ok(e) && e
                    == binario_de(binario_de(a0, op1, a2), op2, a4)) && final(self).avancou(ts, p + 5)))))))
            }),
            ({
                let ts = old(self).tokens_spec();
                let p = old(self).posicao_spec();
                let t0 = old(self).token_spec();
                forma_operando(ts, p) matches Some(par) ==> ((t0 == token_em(ts, p) && para_bitwise_or(
                    token_em(ts, p + par.1),
                )) ==> ((r matches Ok(e) && e == par.0) && final(self).avancou(ts, p + par.1)))
            }),
            ({
                let ts = old(self).tokens_spec();
                let p = old(self).posicao_spec();
                let t0 = old(self).token_spec();
                forma_operando(ts, p) matches Some(par0) ==> (forma_operando(
                    ts,
                    p + par0.1 + 1,
                ) matches Some(par1) ==> (operador_binario(token_em(ts, p + par0.1)) matches Some(
                    op,
                ) ==> ((t0 == token_em(ts, p) && !para_bitwise_or(token_em(ts, p + par0.1)) && para_bitwise_or(
                    token_em(ts, p + par0.1 + 1 + par1.1),
                )) ==> ((r matches Ok(e) && e == binario_de(par0.0, op, par1.0)) && final(self).avancou(ts, p + par0.1 + 1 + par1.1)))))
            }),
        decreases old(self).medida(), 7int,
    {
        let ghost ts = self.tokens_spec();
        let ghost p = self.posicao_spec();
        let ghost t0 = self.token_spec();
        let ghost m0 = self.medida();
        let mut expr = match self.parse_bitwise_and() {
            Ok(e) => e,
            Err(err) => {
                return Err(err);
            },
        };
        loop
            invariant
                ts == old(self).tokens_spec(),
                p == old(self).posicao_spec(),
                t0 == old(self).token_spec(),
                m0 == old(self).medida(),
                self.bem_formado(),
                self.tokens_spec() == ts,
                self.medida() < m0,
                expr_bem_formada(expr),
                expr_atomo(t0) matches Some(ea) ==> (((t0 is Identificador ==> !(token_em(
                    ts,
                    p + 1,
                ) is AbreParentesis)) && para_bitwise_or(token_em(ts, p + 1))) ==> (expr == ea && self.avancou(ts, p + 1))),
                expr_atomo(t0) matches Some(a0) ==> (expr_atomo(token_em(ts, p + 2)) matches Some(
                    a2,
                ) ==> (operador_binario(token_em(ts, p + 1)) matches Some(op) ==> ((!para_bitwise_or(
                    token_em(ts, p + 1),
                ) && (token_em(ts, p + 2) is Identificador ==> !(token_em(
                    ts,
                    p + 3,
                ) is AbreParentesis)) && para_bitwise_or(token_em(ts, p + 3))) ==> ((para_bitwise_and(token_em(ts, p + 1)) && self.avancou(ts, p + 1) && expr == a0) || (self.avancou(ts, p + 3) && expr == binario_de(a0, op, a2)))))),
                expr_atomo(t0) matches Some(a0) ==> (expr_atomo(token_em(ts, p + 2)) matches Some(
                    a2,
                ) ==> (expr_atomo(token_em(ts, p + 4)) matches Some(a4) ==> (operador_binario(
                    token_em(ts, p + 1),
                ) matches Some(op1) ==> (operador_binario(token_em(ts, p + 3)) matches Some(
                    op2,
                ) ==> ((!para_bitwise_or(token_em(ts, p + 1)) && nivel_operador(token_em(ts, p + 3))
                    < nivel_operador(token_em(ts, p + 1)) && (token_em(
                    ts,
                    p + 2,
                ) is Identificador ==> !(token_em(ts, p + 3) is AbreParentesis)) && (token_em(
                    ts,
                    p + 4,
                ) is Identificador ==> !(token_em(ts, p + 5) is AbreParentesis)) && para_bitwise_or(
                    token_em(ts, p + 5),
                )) ==> ((para_bitwise_and(token_em(ts, p + 1)) && self.avancou(ts, p + 1) && expr == a0) || (self.avancou(ts, p + 5) && expr == binario_de(a0, op1, binario_de(a2, op2, a4))))))))),
                expr_atomo(t0) matches Some(a0) ==> (expr_atomo(token_em(ts, p + 2)) matches Some(
                    a2,
                ) ==> (expr_atomo(token_em(ts, p + 4)) matches Some(a4) ==> (operador_binario(
                    token_em(ts, p + 1),
                ) matches Some(op1) ==> (operador_binario(token_em(ts, p + 3)) matches Some(
                    op2,
                ) ==> ((!para_bitwise_or(token_em(ts, p + 1)) && !para_bitwise_or(token_em(ts, p + 3))
                    && nivel_operador(token_em(ts, p + 3)) >= nivel_operador(token_em(ts, p + 1))
                    && (token_em(ts, p + 2) is Identificador ==> !(token_em(
                    ts,
                    p + 3,
                ) is AbreParentesis)) && (token_em(ts, p + 4) is Identificador ==> !(token_em(
                    ts,
                    p + 5,
                ) is AbreParentesis)) && para_bitwise_or(token_em(ts, p + 5))) ==> ((para_bitwise_and(token_em(ts, p + 1)) && self.avancou(ts, p + 1) && expr == a0) || (
                para_bitwise_and(token_em(ts, p + 3)) && self.avancou(ts, p + 3) && expr == binario_de(a0, op1, a2)) || (self.avancou(ts, p + 5) && expr == binario_de(binario_de(a0, op1, a2), op2, a4)))))))),
                forma_operando(ts, p) matches Some(par) ==> ((t0 == token_em(ts, p) && para_bitwise_or(
                    token_em(ts, p + par.1),
                )) ==> (expr == par.0 && self.avancou(ts, p + par.1))),
                forma_operando(ts, p) matches Some(par0) ==> (forma_operando(
                    ts,
                    p + par0.1 + 1,
                ) matches Some(par1) ==> (operador_binario(token_em(ts, p + par0.1)) matches Some(
                    op,
                ) ==> ((t0 == token_em(ts, p) && !para_bitwise_or(token_em(ts, p + par0.1)) && para_bitwise_or(
                    token_em(ts, p + par0.1 + 1 + par1.1),
                )) ==> ((para_bitwise_and(token_em(ts, p + par0.1)) && self.avancou(ts, p + par0.1) && expr
                    == par0.0) || (self.avancou(ts, p + par0.1 + 1 + par1.1) && expr == binario_de(
                    par0.0,
                    op,
                    par1.0,
                )))))),
            ensures
                self.bem_formado(),
                self.tokens_spec() == ts,
                self.medida() < m0,
                expr_bem_formada(expr),
                expr_atomo(t0) matches Some(ea) ==> (((t0 is Identificador ==> !(token_em(
                    ts,
                    p + 1,
                ) is AbreParentesis)) && para_bitwise_or(token_em(ts, p + 1))) ==> (expr == ea && self.avancou(ts, p + 1))),
                expr_atomo(t0) matches Some(a0) ==> (expr_atomo(token_em(ts, p + 2)) matches Some(
                    a2,
                ) ==> (operador_binario(token_em(ts, p + 1)) matches Some(op) ==> ((!para_bitwise_or(
                    token_em(ts, p + 1),
                ) && (token_em(ts, p + 2) is Identificador ==> !(token_em(
                    ts,
                    p + 3,
                ) is AbreParentesis)) && para_bitwise_or(token_em(ts, p + 3))) ==> (self.avancou(ts, p + 3) && expr == binario_de(a0, op, a2))))),
                expr_atomo(t0) matches Some(a0) ==> (expr_atomo(token_em(ts, p + 2)) matches Some(
                    a2,
                ) ==> (expr_atomo(token_em(ts, p + 4)) matches Some(a4) ==> (operador_binario(
                    token_em(ts, p + 1),
                ) matches Some(op1) ==> (operador_binario(token_em(ts, p + 3)) matches Some(
                    op2,
                ) ==> ((!para_bitwise_or(token_em(ts, p + 1)) && nivel_operador(token_em(ts, p + 3))
                    < nivel_operador(token_em(ts, p + 1)) && (token_em(
                    ts,
                    p + 2,
                ) is Identificador ==> !(token_em(ts, p + 3) is AbreParentesis)) && (token_em(
                    ts,
                    p + 4,
                ) is Identificador ==> !(token_em(ts, p + 5) is AbreParentesis)) && para_bitwise_or(
                    token_em(ts, p + 5),
                )) ==> (self.avancou(ts, p + 5) && expr == binario_de(a0, op1, binario_de(a2, op2, a4)))))))),
                expr_atomo(t0) matches Some(a0) ==> (expr_atomo(token_em(ts, p + 2)) matches Some(
                    a2,
                ) ==> (expr_atomo(token_em(ts, p + 4)) matches Some(a4) ==> (operador_binario(
                    token_em(ts, p + 1),
                ) matches Some(op1) ==> (operador_binario(token_em(ts, p + 3)) matches Some(
                    op2,
                ) ==> ((!para_bitwise_or(token_em(ts, p + 1)) && !para_bitwise_or(token_em(ts, p + 3))
                    && nivel_operador(token_em(ts, p + 3)) >= nivel_operador(token_em(ts, p + 1))
                    && (token_em(ts, p + 2) is Identificador ==> !(token_em(
                    ts,
                    p + 3,
                ) is AbreParentesis)) && (token_em(ts, p + 4) is Identificador ==> !(token_em(
                    ts,
                    p + 5,
                ) is AbreParentesis)) && para_bitwise_or(token_em(ts, p + 5))) ==> (self.avancou(ts, p + 5) && expr == binario_de(binario_de(a0, op1, a2), op2, a4))))))),
                forma_operando(ts, p) matches Some(par) ==> ((t0 == token_em(ts, p) && para_bitwise_or(
                    token_em(ts, p + par.1),
                )) ==> (expr == par.0 && self.avancou(ts, p + par.1))),
                forma_operando(ts, p) matches Some(par0) ==> (forma_operando(
                    ts,
                    p + par0.1 + 1,
                ) matches Some(par1) ==> (operador_binario(token_em(ts, p + par0.1)) matches Some(
                    op,
                ) ==> ((t0 == token_em(ts, p) && !para_bitwise_or(token_em(ts, p + par0.1)) && para_bitwise_or(
                    token_em(ts, p + par0.1 + 1 + par1.1),
                )) ==> (self.avancou(ts, p + par0.1 + 1 + par1.1) && expr == binario_de(par0.0, op, par1.0))))),
            decreases self.medida(),
        {
            let operador = match &self.token_atual {
                Token::BarraVertical => Operador::BarraVertical,
                _ => {
                    break ;
                },
            };
            self.avancar();
            let direita = match self.parse_bitwise_and() {
                Ok(e) => e,
                Err(err) => {
                    return Err(err);
                },
            };
            expr = Expr::Binario { esquerda: Box::new(expr), operador, direita: Box::new(direita) };
        }
        Ok(expr)
    }

    /// The logical-and level, over bitwise-or expressions, left associative.
    /// One of this cascade's binary operators joining lone operands before a
    /// full stop owes the one binary node; a tighter operator on the right
    /// nests first.
    pub fn parse_logical_and(&mut self) -> (r: Result<Expr, ErroParse>)
        requires
            old(self).bem_formado(),
        ensures
            final(self).bem_formado(),
            final(self).tokens_spec() == old(self).tokens_spec(),
            final(self).medida() <= old(self).medida(),
            r matches Ok(e) ==> expr_bem_formada(e) && final(self).medida() < old(self).medida(),
            r matches Err(err) ==> err.linha as int == final(self).linha_spec() && err.encontrado
                == final(self).token_spec(),
            ({
                let ts = old(self).tokens_spec();
                let p = old(self).posicao_spec();
                let t0 = old(self).token_spec();
                expr_atomo(t0) matches Some(ea) ==> (((t0 is Identificador ==> !(token_em(
                    ts,
                    p + 1,
                ) is AbreParentesis)) && para_logical_and(token_em(ts, p + 1))) ==> ((r matches Ok(e) && e == ea) && final(self).avancou(ts, p + 1)))
            }),
            ({
                let ts = old(self).tokens_spec();
                let p = old(self).posicao_spec();
                let t0 = old(self).token_spec();
                expr_atomo(t0) matches Some(a0) ==> (expr_atomo(token_em(ts, p + 2)) matches Some(
                    a2,
                ) ==> (operador_binario(token_em(ts, p + 1)) matches Some(op) ==> ((!para_logical_and(
                    token_em(ts, p + 1),
                ) && (token_em(ts, p + 2) is Identificador ==> !(token_em(
                    ts,
                    p + 3,
                ) is AbreParentesis)) && para_logical_and(token_em(ts, p + 3))) ==> ((r matches Ok(e) && e == binario_de(a0, op, a2)) && final(self).avancou(ts, p + 3)))))
            }),
            ({
                let ts = old(self).tokens_spec();
                let p = old(self).posicao_spec();
                let t0 = old(self).token_spec();
                expr_atomo(t0) matches Some(a0) ==> (expr_atomo(token_em(ts, p + 2)) matches Some(
                    a2,
                ) ==> (expr_atomo(token_em(ts, p + 4)) matches Some(a4) ==> (operador_binario(
                    token_em(ts, p + 1),
                ) matches Some(op1) ==> (operador_binario(token_em(ts, p + 3)) matches Some(
                    op2,
                ) ==> ((!para_logical_and(token_em(ts, p + 1)) && nivel_operador(token_em(ts, p + 3))
                    < nivel_operador(token_em(ts, p + 1)) && (token_em(
                    ts,
                    p + 2,
                ) is Identificador ==> !(token_em(ts, p + 3) is AbreParentesis)) && (token_em(
                    ts,
                    p + 4,
                ) is Identificador ==> !(token_em(ts, p + 5) is AbreParentesis)) && para_logical_and(
                    token_em(ts, p + 5),
                )) ==> ((r matches Ok(e) && e == binario_de(a0, op1, binario_de(a2, op2, a4))) && final(self).avancou(ts, p + 5)))))))
            }),
                ({
                let ts = old(self).tokens_spec();
                let p = old(self).posicao_spec();
                let t0 = old(self).token_spec();
                expr_atomo(t0) matches Some(a0) ==> (expr_atomo(token_em(ts, p + 2)) matches Some(
                    a2,
                ) ==> (expr_atomo(token_em(ts, p + 4)) matches Some(a4) ==> (operador_binario(
                    token_em(ts, p + 1),
                ) matches Some(op1) ==> (operador_binario(token_em(ts, p + 3)) matches Some(
                    op2,
                ) ==> ((!para_logical_and(token_em(ts, p + 1)) && !para_logical_and(token_em(ts, p + 3))
                    && nivel_operador(token_em(ts, p + 3)) >= nivel_operador(token_em(ts, p + 1))
                    && (token_em(ts, p + 2) is Identificador ==> !(token_em(
                    ts,
                    p + 3,
                ) is AbreParentesis)) && (token_em(ts, p + 4) is Identificador ==> !(token_em(
                    ts,
                    p + 5,
                ) is AbreParentesis)) && para_logical_and(token_em(ts, p + 5))) ==> ((r matches Ok(e) && e
                    == binario_de(binario_de(a0, op1, a2), op2, a4)) && final(self).avancou(ts, p + 5)))))))
            }),
            ({
                let ts = old(self).tokens_spec();
                let p = old(self).posicao_spec();
                let t0 = old(self).token_spec();
                forma_operando(ts, p) matches Some(par) ==> ((t0 == token_em(ts, p) && para_logical_and(
                    token_em(ts, p + par.1),
                )) ==> ((r matches Ok(e) && e == par.0) && final(self).avancou(ts, p + par.1)))
            }),
            ({
                let ts = old(self).tokens_spec();
                let p = old(self).posicao_spec();
                let t0 = old(self).token_spec();
                forma_operando(ts, p) matches Some(par0) ==> (forma_operando(
                    ts,
                    p + par0.1 + 1,
                ) matches Some(par1) ==> (operador_binario(token_em(ts, p + par0.1)) matches Some(
                    op,
                ) ==> ((t0 == token_em(ts, p) && !para_logical_and(token_em(ts, p + par0.1)) && para_logical_and(
                    token_em(ts, p + par0.1 + 1 + par1.1),
                )) ==> ((r matches Ok(e) && e == binario_de(par0.0, op, par1.0)) && final(self).avancou(ts, p + par0.1 + 1 + par1.1)))))
            }),
        decreases old(self).medida(), 8int,
    {
        let ghost ts = self.tokens_spec();
        let ghost p = self.posicao_spec();
        let ghost t0 = self.token_spec();
        let ghost m0 = self.medida();
        let mut expr = match self.parse_bitwise_or() {
            Ok(e) => e,
            Err(err) => {
                return Err(err);
            },
        };
        loop
            invariant
                ts == old(self).tokens_spec(),
                p == old(self).posicao_spec(),
                t0 == old(self).token_spec(),
                m0 == old(self).medida(),
                self.bem_formado(),
                self.tokens_spec() == ts,
                self.medida() < m0,
                expr_bem_formada(expr),
                expr_atomo(t0) matches Some(ea) ==> (((t0 is Identificador ==> !(token_em(
                    ts,
                    p + 1,
                ) is AbreParentesis)) && para_logical_and(token_em(ts, p + 1))) ==> (expr == ea && self.avancou(ts, p + 1))),
                expr_atomo(t0) matches Some(a0) ==> (expr_atomo(token_em(ts, p + 2)) matches Some(
                    a2,
                ) ==> (operador_binario(token_em(ts, p + 1)) matches Some(op) ==> ((!para_logical_and(
                    token_em(ts, p + 1),
                ) && (token_em(ts, p + 2) is Identificador ==> !(token_em(
                    ts,
                    p + 3,
                ) is AbreParentesis)) && para_logical_and(token_em(ts, p + 3))) ==> ((para_bitwise_or(token_em(ts, p + 1)) && self.avancou(ts, p + 1) && expr == a0) || (self.avancou(ts, p + 3) && expr == binario_de(a0, op, a2)))))),
                expr_atomo(t0) matches Some(a0) ==> (expr_atomo(token_em(ts, p + 2)) matches Some(
                    a2,
                ) ==> (expr_atomo(token_em(ts, p + 4)) matches Some(a4) ==> (operador_binario(
                    token_em(ts, p + 1),
                ) matches Some(op1) ==> (operador_binario(token_em(ts, p + 3)) matches Some(
                    op2,
                ) ==> ((!para_logical_and(token_em(ts, p + 1)) && nivel_operador(token_em(ts, p + 3))
                    < nivel_operador(token_em(ts, p + 1)) && (token_em(
                    ts,
                    p + 2,
                ) is Identificador ==> !(token_em(ts, p + 3) is AbreParentesis)) && (token_em(
                    ts,
                    p + 4,
                ) is Identificador ==> !(token_em(ts, p + 5) is AbreParentesis)) && para_logical_and(
                    token_em(ts, p + 5),
                )) ==> ((para_bitwise_or(token_em(ts, p + 1)) && self.avancou(ts, p + 1) && expr == a0) || (self.avancou(ts, p + 5) && expr == binario_de(a0, op1, binario_de(a2, op2, a4))))))))),
                expr_atomo(t0) matches Some(a0) ==> (expr_atomo(token_em(ts, p + 2)) matches Some(
                    a2,
                ) ==> (expr_atomo(token_em(ts, p + 4)) matches Some(a4) ==> (operador_binario(
                    token_em(ts, p + 1),
                ) matches Some(op1) ==> (operador_binario(token_em(ts, p + 3)) matches Some(
                    op2,
                ) ==> ((!para_logical_and(token_em(ts, p + 1)) && !para_logical_and(token_em(ts, p + 3))
                    && nivel_operador(token_em(ts, p + 3)) >= nivel_operador(token_em(ts, p + 1))
                    && (token_em(ts, p + 2) is Identificador ==> !(token_em(
                    ts,
                    p + 3,
                ) is AbreParentesis)) && (token_em(ts, p + 4) is Identificador ==> !(token_em(
                    ts,
                    p + 5,
                ) is AbreParentesis)) && para_logical_and(token_em(ts, p + 5))) ==> ((para_bitwise_or(token_em(ts, p + 1)) && self.avancou(ts, p + 1) && expr == a0) || (
                para_bitwise_or(token_em(ts, p + 3)) && self.avancou(ts, p + 3) && expr == binario_de(a0, op1, a2)) || (self.avancou(ts, p + 5) && expr == binario_de(binario_de(a0, op1, a2), op2, a4)))))))),
                forma_operando(ts, p) matches Some(par) ==> ((t0 == token_em(ts, p) && para_logical_and(
                    token_em(ts, p + par.1),
                )) ==> (expr == par.0 && self.avancou(ts, p + par.1))),
                forma_operando(ts, p) matches Some(par0) ==> (forma_operando(
                    ts,
                    p + par0.1 + 1,
                ) matches Some(par1) ==> (operador_binario(token_em(ts, p + par0.1)) matches Some(
                    op,
                ) ==> ((t0 == token_em(ts, p) && !para_logical_and(token_em(ts, p + par0.1)) && para_logical_and(
                    token_em(ts, p + par0.1 + 1 + par1.1),
                )) ==> ((para_bitwise_or(token_em(ts, p + par0.1)) && self.avancou(ts, p + par0.1) && expr
                    == par0.0) || (self.avancou(ts, p + par0.1 + 1 + par1.1) && expr == binario_de(
                    par0.0,
                    op,
                    par1.0,
                )))))),
            ensures
                self.bem_formado(),
                self.tokens_spec() == ts,
                self.medida() < m0,
                expr_bem_formada(expr),
                expr_atomo(t0) matches Some(ea) ==> (((t0 is Identificador ==> !(token_em(
                    ts,
                    p + 1,
                ) is AbreParentesis)) && para_logical_and(token_em(ts, p + 1))) ==> (expr == ea && self.avancou(ts, p + 1))),
                expr_atomo(t0) matches Some(a0) ==> (expr_atomo(token_em(ts, p + 2)) matches Some(
                    a2,
                ) ==> (operador_binario(token_em(ts, p + 1)) matches Some(op) ==> ((!para_logical_and(
                    token_em(ts, p + 1),
                ) && (token_em(ts, p + 2) is Identificador ==> !(token_em(
                    ts,
                    p + 3,
                ) is AbreParentesis)) && para_logical_and(token_em(ts, p + 3))) ==> (self.avancou(ts, p + 3) && expr == binario_de(a0, op, a2))))),
                expr_atomo(t0) matches Some(a0) ==> (expr_atomo(token_em(ts, p + 2)) matches Some(
                    a2,
                ) ==> (expr_atomo(token_em(ts, p + 4)) matches Some(a4) ==> (operador_binario(
                    token_em(ts, p + 1),
                ) matches Some(op1) ==> (operador_binario(token_em(ts, p + 3)) matches Some(
                    op2,
                ) ==> ((!para_logical_and(token_em(ts, p + 1)) && nivel_operador(token_em(ts, p + 3))
                    < nivel_operador(token_em(ts, p + 1)) && (token_em(
                    ts,
                    p + 2,
                ) is Identificador ==> !(token_em(ts, p + 3) is AbreParentesis)) && (token_em(
                    ts,
                    p + 4,
                ) is Identificador ==> !(token_em(ts, p + 5) is AbreParentesis)) && para_logical_and(
                    token_em(ts, p + 5),
                )) ==> (self.avancou(ts, p + 5) && expr == binario_de(a0, op1, binario_de(a2, op2, a4)))))))),
                expr_atomo(t0) matches Some(a0) ==> (expr_atomo(token_em(ts, p + 2)) matches Some(
                    a2,
                ) ==> (expr_atomo(token_em(ts, p + 4)) matches Some(a4) ==> (operador_binario(
                    token_em(ts, p + 1),
                ) matches Some(op1) ==> (operador_binario(token_em(ts, p + 3)) matches Some(
                    op2,
                ) ==> ((!para_logical_and(token_em(ts, p + 1)) && !para_logical_and(token_em(ts, p + 3))
                    && nivel_operador(token_em(ts, p + 3)) >= nivel_operador(token_em(ts, p + 1))
                    && (token_em(ts, p + 2) is Identificador ==> !(token_em(
                    ts,
                    p + 3,
                ) is AbreParentesis)) && (token_em(ts, p + 4) is Identificador ==> !(token_em(
                    ts,
                    p + 5,
                ) is AbreParentesis)) && para_logical_and(token_em(ts, p + 5))) ==> (self.avancou(ts, p + 5) && expr == binario_de(binario_de(a0, op1, a2), op2, a4))))))),
                forma_operando(ts, p) matches Some(par) ==> ((t0 == token_em(ts, p) && para_logical_and(
                    token_em(ts, p + par.1),
                )) ==> (expr == par.0 && self.avancou(ts, p + par.1))),
                forma_operando(ts, p) matches Some(par0) ==> (forma_operando(
                    ts,
                    p + par0.1 + 1,
                ) matches Some(par1) ==> (operador_binario(token_em(ts, p + par0.1)) matches Some(
                    op,
                ) ==> ((t0 == token_em(ts, p) && !para_logical_and(token_em(ts, p + par0.1)) && para_logical_and(
                    token_em(ts, p + par0.1 + 1 + par1.1),
                )) ==> (self.avancou(ts, p + par0.1 + 1 + par1.1) && expr == binario_de(par0.0, op, par1.0))))),
            decreases self.medida(),
        {
            let operador = match &self.token_atual {
                Token::EComercialDuplo => Operador::EComercialDuplo,
                _ => {
                    break ;
                },
            };
            self.avancar();
            let direita = match self.parse_bitwise_or() {
                Ok(e) => e,
                Err(err) => {
                    return Err(err);
                },
            };
            expr = Expr::Binario { esquerda: Box::new(expr), operador, direita: Box::new(direita) };
        }
        Ok(expr)
    }

    /// The logical-or level, over logical-and expressions, left associative.
    /// One of this cascade's binary operators joining lone operands before a
    /// full stop owes the one binary node; a tighter operator on the right
    /// nests first.
    pub fn parse_logical_or(&mut self) -> (r: Result<Expr, ErroParse>)
        requires
            old(self).bem_formado(),
        ensures
            final(self).bem_formado(),
            final(self).tokens_spec() == old(self).tokens_spec(),
            final(self).medida() <= old(self).medida(),
            r matches Ok(e) ==> expr_bem_formada(e) && final(self).medida() < old(self).medida(),
            r matches Err(err) ==> err.linha as int == final(self).linha_spec() && err.encontrado
                == final(self).token_spec(),
            ({
                let ts = old(self).tokens_spec();
                let p = old(self).posicao_spec();
                let t0 = old(self).token_spec();
                expr_atomo(t0) matches Some(ea) ==> (((t0 is Identificador ==> !(token_em(
                    ts,
                    p + 1,
                ) is AbreParentesis)) && para_logical_or(token_em(ts, p + 1))) ==> ((r matches Ok(e) && e == ea) && final(self).avancou(ts, p + 1)))
            }),
            ({
                let ts = old(self).tokens_spec();
                let p = old(self).posicao_spec();
                let t0 = old(self).token_spec();
                expr_atomo(t0) matches Some(a0) ==> (expr_atomo(token_em(ts, p + 2)) matches Some(
                    a2,
                ) ==> (operador_binario(token_em(ts, p + 1)) matches Some(op) ==> ((!para_logical_or(
                    token_em(ts, p + 1),
                ) && (token_em(ts, p + 2) is Identificador ==> !(token_em(
                    ts,
                    p + 3,
                ) is AbreParentesis)) && para_logical_or(token_em(ts, p + 3))) ==> ((r matches Ok(e) && e == binario_de(a0, op, a2)) && final(self).avancou(ts, p + 3)))))
            }),
            ({
                let ts = old(self).tokens_spec();
                let p = old(self).posicao_spec();
                let t0 = old(self).token_spec();
                expr_atomo(t0) matches Some(a0) ==> (expr_atomo(token_em(ts, p + 2)) matches Some(
                    a2,
                ) ==> (expr_atomo(token_em(ts, p + 4)) matches Some(a4) ==> (operador_binario(
                    token_em(ts, p + 1),
                ) matches Some(op1) ==> (operador_binario(token_em(ts, p + 3)) matches Some(
                    op2,
                ) ==> ((!para_logical_or(token_em(ts, p + 1)) && nivel_operador(token_em(ts, p + 3))
                    < nivel_operador(token_em(ts, p + 1)) && (token_em(
                    ts,
                    p + 2,
                ) is Identificador ==> !(token_em(ts, p + 3) is AbreParentesis)) && (token_em(
                    ts,
                    p + 4,
                ) is Identificador ==> !(token_em(ts, p + 5) is AbreParentesis)) && para_logical_or(
                    token_em(ts, p + 5),
                )) ==> ((r matches Ok(e) && e == binario_de(a0, op1, binario_de(a2, op2, a4))) && final(self).avancou(ts, p + 5)))))))
            }),
                ({
                let ts = old(self).tokens_spec();
                let p = old(self).posicao_spec();
                let t0 = old(self).token_spec();
                expr_atomo(t0) matches Some(a0) ==> (expr_atomo(token_em(ts, p + 2)) matches Some(
                    a2,
                ) ==> (expr_atomo(token_em(ts, p + 4)) matches Some(a4) ==> (operador_binario(
                    token_em(ts, p + 1),
                ) matches Some(op1) ==> (operador_binario(token_em(ts, p + 3)) matches Some(
                    op2,
                ) ==> ((!para_logical_or(token_em(ts, p + 1)) && !para_logical_or(token_em(ts, p + 3))
                    && nivel_operador(token_em(ts, p + 3)) >= nivel_operador(token_em(ts, p + 1))
                    && (token_em(ts, p + 2) is Identificador ==> !(token_em(
                    ts,
                    p + 3,
                ) is AbreParentesis)) && (token_em(ts, p + 4) is Identificador ==> !(token_em(
                    ts,
                    p + 5,
                ) is AbreParentesis)) && para_logical_or(token_em(ts, p + 5))) ==> ((r matches Ok(e) && e
                    == binario_de(binario_de(a0, op1, a2), op2, a4)) && final(self).avancou(ts, p + 5)))))))
            }),
            ({
                let ts = old(self).tokens_spec();
                let p = old(self).posicao_spec();
                let t0 = old(self).token_spec();
                forma_operando(ts, p) matches Some(par) ==> ((t0 == token_em(ts, p) && para_logical_or(
                    token_em(ts, p + par.1),
                )) ==> ((r matches Ok(e) && e == par.0) && final(self).avancou(ts, p + par.1)))
            }),
            ({
                let ts = old(self).tokens_spec();
                let p = old(self).posicao_spec();
                let t0 = old(self).token_spec();
                forma_operando(ts, p) matches Some(par0) ==> (forma_operando(
                    ts,
                    p + par0.1 + 1,
                ) matches Some(par1) ==> (operador_binario(token_em(ts, p + par0.1)) matches Some(
                    op,
                ) ==> ((t0 == token_em(ts, p) && !para_logical_or(token_em(ts, p + par0.1)) && para_logical_or(
                    token_em(ts, p + par0.1 + 1 + par1.1),
                )) ==> ((r matches Ok(e) && e == binario_de(par0.0, op, par1.0)) && final(self).avancou(ts, p + par0.1 + 1 + par1.1)))))
            }),
        decreases old(self).medida(), 9int,
    {
        let ghost ts = self.tokens_spec();
        let ghost p = self.posicao_spec();
        let ghost t0 = self.token_spec();
        let ghost m0 = self.medida();
        let mut expr = match self.parse_logical_and() {
            Ok(e) => e,
            Err(err) => {
                return Err(err);
            },
        };
        loop
            invariant
                ts == old(self).tokens_spec(),
                p == old(self).posicao_spec(),
                t0 == old(self).token_spec(),
                m0 == old(self).medida(),
                self.bem_formado(),
                self.tokens_spec() == ts,
                self.medida() < m0,
                expr_bem_formada(expr),
                expr_atomo(t0) matches Some(ea) ==> (((t0 is Identificador ==> !(token_em(
                    ts,
                    p + 1,
                ) is AbreParentesis)) && para_logical_or(token_em(ts, p + 1))) ==> (expr == ea && self.avancou(ts, p + 1))),
                expr_atomo(t0) matches Some(a0) ==> (expr_atomo(token_em(ts, p + 2)) matches Some(
                    a2,
                ) ==> (operador_binario(token_em(ts, p + 1)) matches Some(op) ==> ((!para_logical_or(
                    token_em(ts, p + 1),
                ) && (token_em(ts, p + 2) is Identificador ==> !(token_em(
                    ts,
                    p + 3,
                ) is AbreParentesis)) && para_logical_or(token_em(ts, p + 3))) ==> ((para_logical_and(token_em(ts, p + 1)) && self.avancou(ts, p + 1) && expr == a0) || (self.avancou(ts, p + 3) && expr == binario_de(a0, op, a2)))))),
                expr_atomo(t0) matches Some(a0) ==> (expr_atomo(token_em(ts, p + 2)) matches Some(
                    a2,
                ) ==> (expr_atomo(token_em(ts, p + 4)) matches Some(a4) ==> (operador_binario(
                    token_em(ts, p + 1),
                ) matches Some(op1) ==> (operador_binario(token_em(ts, p + 3)) matches Some(
                    op2,
                ) ==> ((!para_logical_or(token_em(ts, p + 1)) && nivel_operador(token_em(ts, p + 3))
                    < nivel_operador(token_em(ts, p + 1)) && (token_em(
                    ts,
                    p + 2,
                ) is Identificador ==> !(token_em(ts, p + 3) is AbreParentesis)) && (token_em(
                    ts,
                    p + 4,
                ) is Identificador ==> !(token_em(ts, p + 5) is AbreParentesis)) && para_logical_or(
                    token_em(ts, p + 5),
                )) ==> ((para_logical_and(token_em(ts, p + 1)) && self.avancou(ts, p + 1) && expr == a0) || (self.avancou(ts, p + 5) && expr == binario_de(a0, op1, binario_de(a2, op2, a4))))))))),
                expr_atomo(t0) matches Some(a0) ==> (expr_atomo(token_em(ts, p + 2)) matches Some(
                    a2,
                ) ==> (expr_atomo(token_em(ts, p + 4)) matches Some(a4) ==> (operador_binario(
                    token_em(ts, p + 1),
                ) matches Some(op1) ==> (operador_binario(token_em(ts, p + 3)) matches Some(
                    op2,
                ) ==> ((!para_logical_or(token_em(ts, p + 1)) && !para_logical_or(token_em(ts, p + 3))
                    && nivel_operador(token_em(ts, p + 3)) >= nivel_operador(token_em(ts, p + 1))
                    && (token_em(ts, p + 2) is Identificador ==> !(token_em(
                    ts,
                    p + 3,
                ) is AbreParentesis)) && (token_em(ts, p + 4) is Identificador ==> !(token_em(
                    ts,
                    p + 5,
                ) is AbreParentesis)) && para_logical_or(token_em(ts, p + 5))) ==> ((para_logical_and(token_em(ts, p + 1)) && self.avancou(ts, p + 1) && expr == a0) || (
                para_logical_and(token_em(ts, p + 3)) && self.avancou(ts, p + 3) && expr == binario_de(a0, op1, a2)) || (self.avancou(ts, p + 5) && expr == binario_de(binario_de(a0, op1, a2), op2, a4)))))))),
                forma_operando(ts, p) matches Some(par) ==> ((t0 == token_em(ts, p) && para_logical_or(
                    token_em(ts, p + par.1),
                )) ==> (expr == par.0 && self.avancou(ts, p + par.1))),
                forma_operando(ts, p) matches Some(par0) ==> (forma_operando(
                    ts,
                    p + par0.1 + 1,
                ) matches Some(par1) ==> (operador_binario(token_em(ts, p + par0.1)) matches Some(
                    op,
                ) ==> ((t0 == token_em(ts, p) && !para_logical_or(token_em(ts, p + par0.1)) && para_logical_or(
                    token_em(ts, p + par0.1 + 1 + par1.1),
                )) ==> ((para_logical_and(token_em(ts, p + par0.1)) && self.avancou(ts, p + par0.1) && expr
                    == par0.0) || (self.avancou(ts, p + par0.1 + 1 + par1.1) && expr == binario_de(
                    par0.0,
                    op,
                    par1.0,
                )))))),
            ensures
                self.bem_formado(),
                self.tokens_spec() == ts,
                self.medida() < m0,
                expr_bem_formada(expr),
                expr_atomo(t0) matches Some(ea) ==> (((t0 is Identificador ==> !(token_em(
                    ts,
                    p + 1,
                ) is AbreParentesis)) && para_logical_or(token_em(ts, p + 1))) ==> (expr == ea && self.avancou(ts, p + 1))),
                expr_atomo(t0) matches Some(a0) ==> (expr_atomo(token_em(ts, p + 2)) matches Some(
                    a2,
                ) ==> (operador_binario(token_em(ts, p + 1)) matches Some(op) ==> ((!para_logical_or(
                    token_em(ts, p + 1),
                ) && (token_em(ts, p + 2) is Identificador ==> !(token_em(
                    ts,
                    p + 3,
                ) is AbreParentesis)) && para_logical_or(token_em(ts, p + 3))) ==> (self.avancou(ts, p + 3) && expr == binario_de(a0, op, a2))))),
                expr_atomo(t0) matches Some(a0) ==> (expr_atomo(token_em(ts, p + 2)) matches Some(
                    a2,
                ) ==> (expr_atomo(token_em(ts, p + 4)) matches Some(a4) ==> (operador_binario(
                    token_em(ts, p + 1),
                ) matches Some(op1) ==> (operador_binario(token_em(ts, p + 3)) matches Some(
                    op2,
                ) ==> ((!para_logical_or(token_em(ts, p + 1)) && nivel_operador(token_em(ts, p + 3))
                    < nivel_operador(token_em(ts, p + 1)) && (token_em(
                    ts,
                    p + 2,
                ) is Identificador ==> !(token_em(ts, p + 3) is AbreParentesis)) && (token_em(
                    ts,
                    p + 4,
                ) is Identificador ==> !(token_em(ts, p + 5) is AbreParentesis)) && para_logical_or(
                    token_em(ts, p + 5),
                )) ==> (self.avancou(ts, p + 5) && expr == binario_de(a0, op1, binario_de(a2, op2, a4)))))))),
                expr_atomo(t0) matches Some(a0) ==> (expr_atomo(token_em(ts, p + 2)) matches Some(
                    a2,
                ) ==> (expr_atomo(token_em(ts, p + 4)) matches Some(a4) ==> (operador_binario(
                    token_em(ts, p + 1),
                ) matches Some(op1) ==> (operador_binario(token_em(ts, p + 3)) matches Some(
                    op2,
                ) ==> ((!para_logical_or(token_em(ts, p + 1)) && !para_logical_or(token_em(ts, p + 3))
                    && nivel_operador(token_em(ts, p + 3)) >= nivel_operador(token_em(ts, p + 1))
                    && (token_em(ts, p + 2) is Identificador ==> !(token_em(
                    ts,
                    p + 3,
                ) is AbreParentesis)) && (token_em(ts, p + 4) is Identificador ==> !(token_em(
                    ts,
                    p + 5,
                ) is AbreParentesis)) && para_logical_or(token_em(ts, p + 5))) ==> (self.avancou(ts, p + 5) && expr == binario_de(binario_de(a0, op1, a2), op2, a4))))))),
                forma_operando(ts, p) matches Some(par) ==> ((t0 == token_em(ts, p) && para_logical_or(
                    token_em(ts, p + par.1),
                )) ==> (expr == par.0 && self.avancou(ts, p + par.1))),
                forma_operando(ts, p) matches Some(par0) ==> (forma_operando(
                    ts,
                    p + par0.1 + 1,
                ) matches Some(par1) ==> (operador_binario(token_em(ts, p + par0.1)) matches Some(
                    op,
                ) ==> ((t0 == token_em(ts, p) && !para_logical_or(token_em(ts, p + par0.1)) && para_logical_or(
                    token_em(ts, p + par0.1 + 1 + par1.1),
                )) ==> (self.avancou(ts, p + par0.1 + 1 + par1.1) && expr == binario_de(par0.0, op, par1.0))))),
            decreases self.medida(),
        {
            let operador = match &self.token_atual {
                Token::BarraVerticalDupla => Operador::BarraVerticalDupla,
                _ => {
                    break ;
                },
            };
            self.avancar();
            let direita = match self.parse_logical_and() {
                Ok(e) => e,
                Err(err) => {
                    return Err(err);
                },
            };
            expr = Expr::Binario { esquerda: Box::new(expr), operador, direita: Box::new(direita) };
        }
        Ok(expr)
    }
}

} // verus!
