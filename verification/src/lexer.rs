//! The lexer: consumes raw source text and produces line-tagged tokens on
//! demand, doing all character-level decoding (escapes, comment elision,
//! directive recognition).
//!
//! The source is held as an indexed character sequence with a cursor; the
//! character `'\0'` stands for "past the end". A literal NUL in the source
//! ends any string, path, comment or directive scan that reaches it, like the
//! end of input would, but as a token of its own it is the unrecognized
//! (invalid) character, not the end-of-input sentinel.

use vstd::prelude::*;
use vstd::std_specs::iter::IteratorSpec;
use crate::caracteres::anexar_char;
use crate::caracteres::char_eh_alfabetico;
use crate::caracteres::char_eh_alfanumerico;
use crate::caracteres::char_eh_digito;
use crate::caracteres::char_eh_espaco;
use crate::caracteres::eh_alfabetico_unicode;
use crate::caracteres::eh_char_identificador;
use crate::caracteres::eh_digito;
use crate::caracteres::eh_espaco_unicode;
use crate::caracteres::texto_igual;
use crate::token::Token;

verus! {

/// The character a cursor position reads: the character there, or the NUL
/// sentinel at or past the end of the source.
pub open spec fn char_em(f: Seq<char>, i: int) -> char {
    if 0 <= i < f.len() {
        f[i]
    } else {
        '\0'
    }
}

/// The position one step of the cursor reaches: the next one, capped at the
/// end of the source.
pub open spec fn seguinte(f: Seq<char>, i: int) -> int {
    if i < f.len() {
        i + 1
    } else {
        i
    }
}

/// How many times a character occurs in a sequence.
pub open spec fn conta_char(s: Seq<char>, c: char) -> int
    decreases s.len(),
{
    if s.len() == 0 {
        0
    } else {
        conta_char(s.drop_last(), c) + if s.last() == c {
            1int
        } else {
            0int
        }
    }
}

proof fn lema_conta_char_limites(s: Seq<char>, c: char)
    ensures
        0 <= conta_char(s, c) <= s.len(),
    decreases s.len(),
{
    if s.len() > 0 {
        lema_conta_char_limites(s.drop_last(), c);
    }
}

/// The 1-based line number at a cursor position: one more than the newlines
/// before it, held at the machine limit in the degenerate case that a source
/// has more lines than `usize` can count.
pub open spec fn linha_em(f: Seq<char>, p: int) -> int {
    if 1 + conta_char(f.take(p), '\n') <= usize::MAX {
        1 + conta_char(f.take(p), '\n')
    } else {
        usize::MAX as int
    }
}

/// Where an identifier run starting at a position ends: the first position at
/// or after it whose character is not a letter, digit or underscore.
pub open spec fn fim_identificador(f: Seq<char>, i: int) -> int
    decreases f.len() - i,
{
    if 0 <= i < f.len() && eh_char_identificador(f[i]) {
        fim_identificador(f, i + 1)
    } else {
        i
    }
}

/// Where a digit run starting at a position ends.
pub open spec fn fim_digitos(f: Seq<char>, i: int) -> int
    decreases f.len() - i,
{
    if 0 <= i < f.len() && eh_digito(f[i]) {
        fim_digitos(f, i + 1)
    } else {
        i
    }
}

proof fn lema_fim_identificador_limites(f: Seq<char>, i: int)
    requires
        0 <= i <= f.len(),
    ensures
        i <= fim_identificador(f, i) <= f.len(),
    decreases f.len() - i,
{
    if i < f.len() && eh_char_identificador(f[i]) {
        lema_fim_identificador_limites(f, i + 1);
    }
}

/// An identifier starting on an identifier character is nonempty.
proof fn lema_fim_identificador_avanca(f: Seq<char>, i: int)
    requires
        0 <= i < f.len(),
        eh_char_identificador(f[i]),
    ensures
        i < fim_identificador(f, i) <= f.len(),
{
    lema_fim_identificador_limites(f, i + 1);
}

proof fn lema_fim_digitos_limites(f: Seq<char>, i: int)
    requires
        0 <= i <= f.len(),
    ensures
        i <= fim_digitos(f, i) <= f.len(),
    decreases f.len() - i,
{
    if i < f.len() && eh_digito(f[i]) {
        lema_fim_digitos_limites(f, i + 1);
    }
}

/// A number starting on a digit is nonempty.
proof fn lema_fim_numero_avanca(f: Seq<char>, i: int)
    requires
        0 <= i < f.len(),
        eh_digito(f[i]),
    ensures
        i < fim_numero(f, i) <= f.len(),
{
    lema_fim_digitos_limites(f, i + 1);
    if eh_numero_float(f, i) {
        lema_fim_digitos_limites(f, fim_digitos(f, i) + 1);
    }
}

/// Whether a number starting at a position is a floating literal: its integer
/// digit run is followed by a decimal point.
pub open spec fn eh_numero_float(f: Seq<char>, i: int) -> bool {
    char_em(f, fim_digitos(f, i)) == '.'
}

/// Where a number starting at a position ends: after its digit run, and, when
/// a decimal point follows, after the point and the fractional digit run.
pub open spec fn fim_numero(f: Seq<char>, i: int) -> int {
    if eh_numero_float(f, i) {
        fim_digitos(f, fim_digitos(f, i) + 1)
    } else {
        fim_digitos(f, i)
    }
}

/// What a string-literal escape decodes to: the escapes for newline, tab,
/// double quote and backslash have their meaning, any other escaped character
/// passes through literally.
pub open spec fn escape_aspas(c: char) -> char {
    if c == 'n' {
        '\n'
    } else if c == 't' {
        '\t'
    } else if c == '"' {
        '"'
    } else if c == '\\' {
        '\\'
    } else {
        c
    }
}

/// What a character-literal escape decodes to: as for strings, with the
/// single quote in place of the double quote.
pub open spec fn escape_plica(c: char) -> char {
    if c == 'n' {
        '\n'
    } else if c == 't' {
        '\t'
    } else if c == '\'' {
        '\''
    } else if c == '\\' {
        '\\'
    } else {
        c
    }
}

/// The decoded content of a string literal examined from a position, and the
/// position of its terminator: scanning decodes escapes and stops at an
/// unescaped double quote or at the end of input, whichever comes first.
pub open spec fn corpo_texto(f: Seq<char>, i: int) -> (Seq<char>, int)
    decreases f.len() - i,
{
    let c = char_em(f, i);
    if c == '\\' {
        let resto = corpo_texto(f, seguinte(f, seguinte(f, i)));
        (seq![escape_aspas(char_em(f, seguinte(f, i)))] + resto.0, resto.1)
    } else if c == '"' || c == '\0' {
        (Seq::<char>::empty(), i)
    } else {
        let resto = corpo_texto(f, i + 1);
        (seq![c] + resto.0, resto.1)
    }
}

/// Where a delimited path starting at a position ends: at the closing
/// delimiter or at the end of input.
pub open spec fn fim_caminho(f: Seq<char>, i: int, delimitador: char) -> int
    decreases f.len() - i,
{
    if char_em(f, i) != delimitador && char_em(f, i) != '\0' {
        fim_caminho(f, i + 1, delimitador)
    } else {
        i
    }
}

/// Where a whitespace run starting at a position ends.
pub open spec fn fim_espacos(f: Seq<char>, i: int) -> int
    decreases f.len() - i,
{
    if 0 <= i < f.len() && eh_espaco_unicode(f[i]) {
        fim_espacos(f, i + 1)
    } else {
        i
    }
}

/// The last position of the line a position stands on: that of the next
/// newline, or the end of input.
pub open spec fn fim_linha_fonte(f: Seq<char>, i: int) -> int
    decreases f.len() - i,
{
    if 0 <= i < f.len() && f[i] != '\n' && f[i] != '\0' {
        fim_linha_fonte(f, i + 1)
    } else {
        i
    }
}

/// The first position after the line a position stands on: past its newline,
/// or the end of input.
pub open spec fn apos_linha(f: Seq<char>, i: int) -> int {
    let j = fim_linha_fonte(f, i);
    if char_em(f, j) == '\n' {
        j + 1
    } else {
        j
    }
}


/// The token a one- or two-character symbol resolves to, with how many
/// characters it consumes. Nothing is resolved here for the characters that
/// open a longer form: whitespace, digits, letters, underscores, quotes, `#`,
/// the NUL sentinel, and `/` when it opens a comment.
pub open spec fn simbolo(c1: char, c2: char) -> Option<(Token, int)> {
    if c1 == '\n' {
        Some((Token::QuebraLinha, 1int))
    } else if c1 == ';' {
        Some((Token::PontoVirgula, 1int))
    } else if c1 == '(' {
        Some((Token::AbreParentesis, 1int))
    } else if c1 == ')' {
        Some((Token::FechaParentesis, 1int))
    } else if c1 == '[' {
        Some((Token::AbreColchete, 1int))
    } else if c1 == ']' {
        Some((Token::FechaColchete, 1int))
    } else if c1 == '{' {
        Some((Token::AbreChave, 1int))
    } else if c1 == '}' {
        Some((Token::FechaChave, 1int))
    } else if c1 == '.' {
        Some((Token::Ponto, 1int))
    } else if c1 == ',' {
        Some((Token::Virgula, 1int))
    } else if c1 == '=' {
        if c2 == '=' {
            Some((Token::Comparar, 2int))
        } else {
            Some((Token::Igual, 1int))
        }
    } else if c1 == '+' {
        if c2 == '+' {
            Some((Token::Incremento, 2int))
        } else if c2 == '=' {
            Some((Token::SomaIgual, 2int))
        } else {
            Some((Token::Mais, 1int))
        }
    } else if c1 == '-' {
        if c2 == '-' {
            Some((Token::Decremento, 2int))
        } else if c2 == '=' {
            Some((Token::SubtracaoIgual, 2int))
        } else {
            Some((Token::Menos, 1int))
        }
    } else if c1 == '*' {
        if c2 == '=' {
            Some((Token::MultiplicacaoIgual, 2int))
        } else {
            Some((Token::Asterisco, 1int))
        }
    } else if c1 == '/' {
        if c2 == '/' || c2 == '*' {
            None
        } else if c2 == '=' {
            Some((Token::DivisaoIgual, 2int))
        } else {
            Some((Token::Divisao, 1int))
        }
    } else if c1 == '%' {
        if c2 == '=' {
            Some((Token::ModuloIgual, 2int))
        } else {
            Some((Token::Modulo, 1int))
        }
    } else if c1 == '&' {
        if c2 == '&' {
            Some((Token::EComercialDuplo, 2int))
        } else {
            Some((Token::EComercial, 1int))
        }
    } else if c1 == '|' {
        if c2 == '|' {
            Some((Token::BarraVerticalDupla, 2int))
        } else {
            Some((Token::BarraVertical, 1int))
        }
    } else if c1 == '>' {
        if c2 == '=' {
            Some((Token::MaiorOuIgual, 2int))
        } else if c2 == '>' {
            Some((Token::DeslocamentoDir, 2int))
        } else {
            Some((Token::Maior, 1int))
        }
    } else if c1 == '<' {
        if c2 == '=' {
            Some((Token::MenorOuIgual, 2int))
        } else if c2 == '<' {
            Some((Token::DeslocamentoEsq, 2int))
        } else {
            Some((Token::Menor, 1int))
        }
    } else if c1 == '!' {
        if c2 == '=' {
            Some((Token::Diferente, 2int))
        } else {
            Some((Token::Negacao, 1int))
        }
    } else {
        None
    }
}


proof fn lema_fim_linha_fonte_limites(f: Seq<char>, i: int)
    requires
        0 <= i <= f.len(),
    ensures
        i <= fim_linha_fonte(f, i) <= f.len(),
    decreases f.len() - i,
{
    if i < f.len() && f[i] != '\n' && f[i] != '\0' {
        lema_fim_linha_fonte_limites(f, i + 1);
    }
}

/// Where a block comment's scan from a position ends: just past the closing
/// `*/`, or where a NUL sentinel or the end of input cuts the comment short
/// (an unterminated block comment is not an error).
pub open spec fn fim_comentario_bloco(f: Seq<char>, i: int) -> int
    decreases f.len() - i,
{
    if char_em(f, i) == '\0' {
        i
    } else if char_em(f, i) == '*' && char_em(f, i + 1) == '/' {
        i + 2
    } else {
        fim_comentario_bloco(f, i + 1)
    }
}

proof fn lema_fim_comentario_bloco_limites(f: Seq<char>, i: int)
    requires
        0 <= i <= f.len(),
    ensures
        i <= fim_comentario_bloco(f, i) <= f.len(),
    decreases f.len() - i,
{
    if char_em(f, i) == '\0' {
    } else if char_em(f, i) == '*' && char_em(f, i + 1) == '/' {
    } else {
        lema_fim_comentario_bloco_limites(f, i + 1);
    }
}

/// Where the token under a cursor position begins: runs of whitespace other
/// than newlines, line comments and block comments are passed over.
pub open spec fn inicio_token(f: Seq<char>, i: int) -> int
    decreases f.len() - i,
    when 0 <= i <= f.len()
    via inicio_token_decresce
{
    if 0 <= i < f.len() && f[i] != '\0' && eh_espaco_unicode(f[i]) && f[i] != '\n' {
        inicio_token(f, i + 1)
    } else if char_em(f, i) == '/' && char_em(f, i + 1) == '/' {
        inicio_token(f, fim_linha_fonte(f, i))
    } else if char_em(f, i) == '/' && char_em(f, i + 1) == '*' {
        inicio_token(f, fim_comentario_bloco(f, i + 2))
    } else {
        i
    }
}

#[via_fn]
proof fn inicio_token_decresce(f: Seq<char>, i: int) {
    if 0 <= i < f.len() && f[i] != '\0' && eh_espaco_unicode(f[i]) && f[i] != '\n' {
    } else if char_em(f, i) == '/' && char_em(f, i + 1) == '/' {
        lema_fim_linha_fonte_limites(f, i + 1);
    } else if char_em(f, i) == '/' && char_em(f, i + 1) == '*' {
        lema_fim_comentario_bloco_limites(f, i + 2);
    }
}

/// Where a token begins nothing remains to pass over: the position is within
/// the source, carries no skippable whitespace and opens no comment.
pub proof fn lema_inicio_token_parado(f: Seq<char>, i: int)
    requires
        0 <= i <= f.len(),
    ensures
        i <= inicio_token(f, i) <= f.len(),
        ({
            let q = inicio_token(f, i);
            &&& !(0 <= q < f.len() && f[q] != '\0' && eh_espaco_unicode(f[q]) && f[q] != '\n')
            &&& !(char_em(f, q) == '/' && (char_em(f, q + 1) == '/' || char_em(f, q + 1) == '*'))
        }),
    decreases f.len() - i,
{
    if 0 <= i < f.len() && f[i] != '\0' && eh_espaco_unicode(f[i]) && f[i] != '\n' {
        lema_inicio_token_parado(f, i + 1);
    } else if char_em(f, i) == '/' && char_em(f, i + 1) == '/' {
        lema_fim_linha_fonte_limites(f, i + 1);
        lema_inicio_token_parado(f, fim_linha_fonte(f, i));
    } else if char_em(f, i) == '/' && char_em(f, i + 1) == '*' {
        lema_fim_comentario_bloco_limites(f, i + 2);
        lema_inicio_token_parado(f, fim_comentario_bloco(f, i + 2));
    }
}

/// The position scanning resumes from after a token: the token's own end,
/// held inside the source and strictly past the position scanned from.
pub open spec fn proximo_do_fluxo(f: Seq<char>, i: int, bruto: int) -> int {
    let teto = if bruto <= f.len() {
        bruto
    } else {
        f.len() as int
    };
    if teto > i {
        teto
    } else {
        i + 1
    }
}

/// The buffer, from its `k`-th entry on, is exactly the token stream the
/// lexer yields from source position `i`: every entry carries the token and
/// the line that `prox_token` produces there, and the stream ends with the
/// one end-of-input sentinel, reached only past the last character. A source
/// whose next token is an unterminated character literal has no such stream.
pub open spec fn fluxo_de_tokens(f: Seq<char>, i: int, ts: Seq<(Token, usize)>, k: int) -> bool
    decreases f.len() - i,
    when 0 <= i <= f.len()
{
    let q = inicio_token(f, i);
    let c1 = char_em(f, q);
    let c2 = char_em(f, q + 1);
    if q == f.len() {
        ts.len() == k + 1 && k >= 0 && ts[k].0 is Fundo && ts[k].1 as int == linha_em(f, q)
    } else if 0 <= k < ts.len() && ts[k].1 as int == linha_em(f, q) {
        if simbolo(c1, c2) is Some {
            let par = simbolo(c1, c2)->0;
            ts[k].0 == par.0 && fluxo_de_tokens(f, proximo_do_fluxo(f, i, q + par.1), ts, k + 1)
        } else if c1 == '\0' {
            ts[k].0 is Invalido && fluxo_de_tokens(f, proximo_do_fluxo(f, i, q + 1), ts, k + 1)
        } else if eh_digito(c1) {
            (if eh_numero_float(f, q) {
                ts[k].0 matches Token::NumeroFloat(s) && s@ == f.subrange(q, fim_numero(f, q))
            } else {
                ts[k].0 matches Token::NumeroInt(s) && s@ == f.subrange(q, fim_numero(f, q))
            }) && fluxo_de_tokens(f, proximo_do_fluxo(f, i, fim_numero(f, q)), ts, k + 1)
        } else if c1 == '"' {
            (ts[k].0 matches Token::Texto(s) && s@ == corpo_texto(f, seguinte(f, q)).0)
                && fluxo_de_tokens(
                f,
                proximo_do_fluxo(f, i, seguinte(f, corpo_texto(f, seguinte(f, q)).1)),
                ts,
                k + 1,
            )
        } else if c1 == '\'' {
            let p1 = seguinte(f, q);
            if char_em(f, p1) == '\\' {
                let p2 = seguinte(f, p1);
                let p3 = seguinte(f, p2);
                char_em(f, p3) == '\'' && (ts[k].0 matches Token::ConteudoChar(c) && c
                    == escape_plica(char_em(f, p2))) && fluxo_de_tokens(
                    f,
                    proximo_do_fluxo(f, i, seguinte(f, p3)),
                    ts,
                    k + 1,
                )
            } else {
                let p2 = seguinte(f, p1);
                char_em(f, p2) == '\'' && (ts[k].0 matches Token::ConteudoChar(c) && c == char_em(
                    f,
                    p1,
                )) && fluxo_de_tokens(f, proximo_do_fluxo(f, i, seguinte(f, p2)), ts, k + 1)
            }
        } else if c1 == '#' {
            let c0 = fim_espacos(f, seguinte(f, q));
            let cfim = fim_identificador(f, c0);
            let comando = f.subrange(c0, cfim);
            if comando != "include"@ {
                (ts[k].0 matches Token::Diretiva(s) && s@ == comando) && fluxo_de_tokens(
                    f,
                    proximo_do_fluxo(f, i, apos_linha(f, cfim)),
                    ts,
                    k + 1,
                )
            } else {
                let alvo = fim_espacos(f, cfim);
                if char_em(f, alvo) == '<' {
                    let fim = fim_caminho(f, alvo + 1, '>');
                    (ts[k].0 matches Token::InclusaoGlobal(s) && s@ == f.subrange(alvo + 1, fim))
                        && fluxo_de_tokens(
                        f,
                        proximo_do_fluxo(f, i, apos_linha(f, seguinte(f, fim))),
                        ts,
                        k + 1,
                    )
                } else if char_em(f, alvo) == '"' {
                    let fim = fim_caminho(f, alvo + 1, '"');
                    (ts[k].0 matches Token::InclusaoLocal(s) && s@ == f.subrange(alvo + 1, fim))
                        && fluxo_de_tokens(
                        f,
                        proximo_do_fluxo(f, i, apos_linha(f, seguinte(f, fim))),
                        ts,
                        k + 1,
                    )
                } else {
                    ts[k].0 is Invalido && fluxo_de_tokens(
                        f,
                        proximo_do_fluxo(f, i, apos_linha(f, alvo)),
                        ts,
                        k + 1,
                    )
                }
            }
        } else if eh_alfabetico_unicode(c1) || c1 == '_' {
            (ts[k].0 matches Token::Identificador(s) && s@ == f.subrange(
                q,
                fim_identificador(f, q),
            )) && fluxo_de_tokens(f, proximo_do_fluxo(f, i, fim_identificador(f, q)), ts, k + 1)
        } else {
            ts[k].0 is Invalido && fluxo_de_tokens(f, proximo_do_fluxo(f, i, q + 1), ts, k + 1)
        }
    } else {
        false
    }
}

/// The fatal lexical failure: an unterminated or over-long character literal,
/// reported with the line it was found on.
#[derive(Debug)]
pub struct ErroLexico {
    pub linha: usize,
}

/// The lexical analyser: the source as characters, a cursor, the character
/// under the cursor, and the 1-based line the cursor stands on.
pub struct Lexer {
    fonte: Vec<char>,
    posicao: usize,
    caractere_atual: char,
    linha: usize,
}

impl Lexer {
    /// The source text under analysis.
    pub closed spec fn fonte_spec(self) -> Seq<char> {
        self.fonte@
    }

    /// The cursor position.
    pub closed spec fn posicao_spec(self) -> int {
        self.posicao as int
    }

    /// The character under the cursor.
    pub closed spec fn caractere_spec(self) -> char {
        self.caractere_atual
    }

    /// The line the cursor stands on.
    pub closed spec fn linha_spec(self) -> int {
        self.linha as int
    }

    /// The lexer's internal consistency: the cursor never passes the end of
    /// the source, the current character is the one under the cursor (the NUL
    /// sentinel at the end), and the line count matches the newlines passed.
    pub open spec fn bem_formado(self) -> bool {
        &&& 0 <= self.posicao_spec() <= self.fonte_spec().len()
        &&& self.caractere_spec() == char_em(self.fonte_spec(), self.posicao_spec())
        &&& self.linha_spec() == linha_em(self.fonte_spec(), self.posicao_spec())
    }

    /// Builds a lexer over a source text, with the cursor on its first
    /// character and the line count at one.
    pub fn new(codigo_fonte: String) -> (lx: Self)
        ensures
            lx.bem_formado(),
            lx.fonte_spec() == codigo_fonte@,
            lx.posicao_spec() == 0,
            lx.linha_spec() == 1,
    {
        broadcast use vstd::string::group_string_axioms;

        let mut fonte: Vec<char> = Vec::new();
        let mut iterador = codigo_fonte.as_str().chars();
        loop
            invariant
                iterador.obeys_prophetic_iter_laws(),
                fonte@ + iterador.remaining() == codigo_fonte@,
            ensures
                fonte@ == codigo_fonte@,
            decreases codigo_fonte@.len() - fonte@.len(),
        {
            match iterador.next() {
                Some(c) => {
                    fonte.push(c);
                    proof {
                        assert(fonte@ + iterador.remaining() =~= codigo_fonte@);
                    }
                },
                None => {
                    proof {
                        assert(fonte@ =~= fonte@ + iterador.remaining());
                    }
                    break ;
                },
            }
        }
        let caractere_atual = if fonte.len() == 0 {
            '\0'
        } else {
            fonte[0]
        };
        proof {
            assert(codigo_fonte@.take(0) =~= Seq::<char>::empty());
        }
        Self { fonte, posicao: 0, caractere_atual, linha: 1 }
    }

    /// Moves the cursor one character forward. Leaving a newline raises the
    /// line count; at the end of the source the cursor deliberately stays put
    /// (rather than walking past the end as a raw index would) and the
    /// current character stays the NUL sentinel: positions past the end are
    /// unobservable through tokens, and holding the cursor keeps every
    /// position within the source's bounds.
    pub fn avancar(&mut self)
        requires
            old(self).bem_formado(),
        ensures
            final(self).bem_formado(),
            final(self).fonte_spec() == old(self).fonte_spec(),
            final(self).posicao_spec() == seguinte(
                old(self).fonte_spec(),
                old(self).posicao_spec(),
            ),
            old(self).linha_spec() <= final(self).linha_spec(),
    {
        if self.posicao < self.fonte.len() {
            proof {
                let f = self.fonte@;
                let p = self.posicao as int;
                assert(f.take(p + 1).drop_last() =~= f.take(p));
                assert(f.take(p + 1).last() == f[p]);
                lema_conta_char_limites(f.take(p), '\n');
            }
            if self.caractere_atual == '\n' {
                self.linha = self.linha.saturating_add(1);
            }
            self.posicao = self.posicao + 1;
            if self.posicao < self.fonte.len() {
                self.caractere_atual = self.fonte[self.posicao];
            } else {
                self.caractere_atual = '\0';
            }
        }
    }

    /// Returns the character after the cursor without moving it, the NUL
    /// sentinel when none is left.
    pub fn espiadinha(&self) -> (c: char)
        requires
            self.bem_formado(),
        ensures
            c == char_em(self.fonte_spec(), self.posicao_spec() + 1),
    {
        if self.posicao < self.fonte.len() && self.fonte.len() - self.posicao > 1 {
            self.fonte[self.posicao + 1]
        } else {
            '\0'
        }
    }

    /// Reads the maximal run of letters, digits and underscores under the
    /// cursor and returns its text; the cursor ends on the first character
    /// past the run.
    pub fn ler_identificador(&mut self) -> (r: String)
        requires
            old(self).bem_formado(),
        ensures
            final(self).bem_formado(),
            final(self).fonte_spec() == old(self).fonte_spec(),
            final(self).posicao_spec() == fim_identificador(
                old(self).fonte_spec(),
                old(self).posicao_spec(),
            ),
            r@ == old(self).fonte_spec().subrange(
                old(self).posicao_spec(),
                final(self).posicao_spec(),
            ),
            old(self).posicao_spec() <= final(self).posicao_spec(),
            old(self).linha_spec() <= final(self).linha_spec(),
    {
        let ghost f = self.fonte_spec();
        let ghost p0 = self.posicao_spec();
        let ghost l0 = self.linha_spec();
        let mut r = String::new();
        proof {
            assert(Seq::<char>::empty() =~= f.subrange(p0, p0));
        }
        loop
            invariant
                self.bem_formado(),
                self.fonte_spec() == f,
                0 <= p0 <= self.posicao_spec() <= f.len(),
                l0 <= self.linha_spec(),
                fim_identificador(f, p0) == fim_identificador(f, self.posicao_spec()),
                r@ == f.subrange(p0, self.posicao_spec()),
            ensures
                l0 <= self.linha_spec(),
                self.bem_formado(),
                self.fonte_spec() == f,
                self.posicao_spec() == fim_identificador(f, p0),
                r@ == f.subrange(p0, self.posicao_spec()),
            decreases f.len() - self.posicao_spec(),
        {
            let c = self.caractere_atual;
            let continua = char_eh_alfanumerico(c) || c == '_';
            if !continua {
                break ;
            }
            anexar_char(&mut r, c);
            proof {
                let p = self.posicao_spec();
                assert(f.subrange(p0, p + 1) =~= f.subrange(p0, p).push(f[p]));
            }
            self.avancar();
        }
        r
    }

    /// Reads the maximal digit run under the cursor, appending its text to
    /// the buffer.
    fn ler_digitos(&mut self, r: &mut String)
        requires
            old(self).bem_formado(),
        ensures
            final(self).bem_formado(),
            final(self).fonte_spec() == old(self).fonte_spec(),
            final(self).posicao_spec() == fim_digitos(
                old(self).fonte_spec(),
                old(self).posicao_spec(),
            ),
            final(r)@ == old(r)@ + old(self).fonte_spec().subrange(
                old(self).posicao_spec(),
                final(self).posicao_spec(),
            ),
            old(self).posicao_spec() <= final(self).posicao_spec(),
            old(self).linha_spec() <= final(self).linha_spec(),
    {
        let ghost f = self.fonte_spec();
        let ghost p0 = self.posicao_spec();
        let ghost l0 = self.linha_spec();
        let ghost r0 = r@;
        proof {
            assert(r0 =~= r0 + f.subrange(p0, p0));
        }
        loop
            invariant
                self.bem_formado(),
                self.fonte_spec() == f,
                0 <= p0 <= self.posicao_spec() <= f.len(),
                l0 <= self.linha_spec(),
                fim_digitos(f, p0) == fim_digitos(f, self.posicao_spec()),
                r@ == r0 + f.subrange(p0, self.posicao_spec()),
            ensures
                l0 <= self.linha_spec(),
                self.bem_formado(),
                self.fonte_spec() == f,
                self.posicao_spec() == fim_digitos(f, p0),
                r@ == r0 + f.subrange(p0, self.posicao_spec()),
            decreases f.len() - self.posicao_spec(),
        {
            let c = self.caractere_atual;
            if !char_eh_digito(c) {
                break ;
            }
            anexar_char(r, c);
            proof {
                let p = self.posicao_spec();
                assert(f.subrange(p0, p + 1) =~= f.subrange(p0, p).push(f[p]));
                assert(r0 + f.subrange(p0, p + 1) =~= (r0 + f.subrange(p0, p)).push(f[p]));
            }
            self.avancar();
        }
        proof {
            assert(r0 + f.subrange(p0, p0) =~= r0);
        }
    }

    /// Reads a number under the cursor: a digit run, reclassified as floating
    /// when a decimal point follows, in which case the point and the
    /// fractional digit run are read too. The token keeps the raw digit text.
    pub fn ler_numero(&mut self) -> (r: Token)
        requires
            old(self).bem_formado(),
        ensures
            final(self).bem_formado(),
            final(self).fonte_spec() == old(self).fonte_spec(),
            final(self).posicao_spec() == fim_numero(
                old(self).fonte_spec(),
                old(self).posicao_spec(),
            ),
            ({
                let f = old(self).fonte_spec();
                let p0 = old(self).posicao_spec();
                let texto = f.subrange(p0, fim_numero(f, p0));
                if eh_numero_float(f, p0) {
                    r matches Token::NumeroFloat(s) && s@ == texto
                } else {
                    r matches Token::NumeroInt(s) && s@ == texto
                }
            }),
            old(self).posicao_spec() <= final(self).posicao_spec(),
            old(self).linha_spec() <= final(self).linha_spec(),
    {
        let ghost f = self.fonte_spec();
        let ghost p0 = self.posicao_spec();
        let mut numero_str = String::new();
        proof {
            lema_fim_digitos_limites(f, p0);
        }
        self.ler_digitos(&mut numero_str);
        if self.caractere_atual == '.' {
            proof {
                let fd = fim_digitos(f, p0);
                assert(fd < f.len());
                assert(Seq::<char>::empty() + f.subrange(p0, fd) =~= f.subrange(p0, fd));
            }
            anexar_char(&mut numero_str, '.');
            proof {
                let fd = fim_digitos(f, p0);
                assert(f.subrange(p0, fd + 1) =~= f.subrange(p0, fd).push(f[fd]));
                lema_fim_digitos_limites(f, fd + 1);
            }
            self.avancar();
            self.ler_digitos(&mut numero_str);
            proof {
                let fd = fim_digitos(f, p0);
                let ff = fim_digitos(f, fd + 1);
                assert(f.subrange(p0, fd + 1) + f.subrange(fd + 1, ff) =~= f.subrange(p0, ff));
            }
            Token::NumeroFloat(numero_str)
        } else {
            proof {
                let fd = fim_digitos(f, p0);
                assert(Seq::<char>::empty() + f.subrange(p0, fd) =~= f.subrange(p0, fd));
            }
            Token::NumeroInt(numero_str)
        }
    }

    /// Reads a string literal: the cursor stands on the opening quote, and
    /// ends on the closing quote (or at the end of input when the literal
    /// runs off it, which is not an error). Escapes are decoded.
    pub fn ler_texto(&mut self) -> (r: String)
        requires
            old(self).bem_formado(),
        ensures
            final(self).bem_formado(),
            final(self).fonte_spec() == old(self).fonte_spec(),
            ({
                let f = old(self).fonte_spec();
                let corpo = corpo_texto(f, seguinte(f, old(self).posicao_spec()));
                r@ == corpo.0 && final(self).posicao_spec() == corpo.1
            }),
            old(self).posicao_spec() <= final(self).posicao_spec(),
            old(self).linha_spec() <= final(self).linha_spec(),
    {
        let ghost f = self.fonte_spec();
        let ghost pe = self.posicao_spec();
        let ghost l0 = self.linha_spec();
        self.avancar();
        let ghost inicio = self.posicao_spec();
        let mut r = String::new();
        proof {
            assert(Seq::<char>::empty() + corpo_texto(f, inicio).0 =~= corpo_texto(f, inicio).0);
        }
        loop
            invariant
                self.bem_formado(),
                self.fonte_spec() == f,
                0 <= self.posicao_spec() <= f.len(),
                pe <= self.posicao_spec(),
                l0 <= self.linha_spec(),
                corpo_texto(f, inicio).0 == r@ + corpo_texto(f, self.posicao_spec()).0,
                corpo_texto(f, inicio).1 == corpo_texto(f, self.posicao_spec()).1,
            ensures
                pe <= self.posicao_spec(),
                l0 <= self.linha_spec(),
                self.bem_formado(),
                self.fonte_spec() == f,
                r@ == corpo_texto(f, inicio).0,
                self.posicao_spec() == corpo_texto(f, inicio).1,
            decreases f.len() - self.posicao_spec(),
        {
            let ghost p = self.posicao_spec();
            let c = self.caractere_atual;
            if c == '\\' {
                self.avancar();
                let e = match self.caractere_atual {
                    'n' => '\n',
                    't' => '\t',
                    '"' => '"',
                    '\\' => '\\',
                    _ => self.caractere_atual,
                };
                anexar_char(&mut r, e);
                self.avancar();
                proof {
                    assert(corpo_texto(f, p).0 =~= seq![e] + corpo_texto(
                        f,
                        self.posicao_spec(),
                    ).0);
                    assert(r@ + corpo_texto(f, self.posicao_spec()).0 =~= r@.drop_last() + (seq![e]
                        + corpo_texto(f, self.posicao_spec()).0));
                }
                continue ;
            }
            if c == '"' || c == '\0' {
                proof {
                    assert(r@ + corpo_texto(f, p).0 =~= r@);
                }
                break ;
            }
            anexar_char(&mut r, c);
            self.avancar();
            proof {
                assert(corpo_texto(f, p).0 =~= seq![c] + corpo_texto(f, self.posicao_spec()).0);
                assert(r@ + corpo_texto(f, self.posicao_spec()).0 =~= r@.drop_last() + (seq![c]
                    + corpo_texto(f, self.posicao_spec()).0));
            }
        }
        r
    }

    /// Reads a character literal: the cursor stands on the opening quote.
    /// Exactly one, optionally escaped, character must stand between the
    /// quotes; when the character after that content is not a closing quote,
    /// reading fails fatally with the current line — the lexer's only fatal
    /// condition. On success the cursor ends on the closing quote.
    pub fn ler_char(&mut self) -> (r: Result<char, ErroLexico>)
        requires
            old(self).bem_formado(),
        ensures
            final(self).bem_formado(),
            final(self).fonte_spec() == old(self).fonte_spec(),
            ({
                let f = old(self).fonte_spec();
                let p1 = seguinte(f, old(self).posicao_spec());
                if char_em(f, p1) == '\\' {
                    let p2 = seguinte(f, p1);
                    let p3 = seguinte(f, p2);
                    &&& final(self).posicao_spec() == p3
                    &&& (char_em(f, p3) == '\'' ==> r == Ok::<char, ErroLexico>(
                        escape_plica(char_em(f, p2)),
                    ))
                    &&& (char_em(f, p3) != '\'' ==> (r matches Err(e) && e.linha as int == final(self).linha_spec()))
                } else {
                    let p2 = seguinte(f, p1);
                    &&& final(self).posicao_spec() == p2
                    &&& (char_em(f, p2) == '\'' ==> r == Ok::<char, ErroLexico>(char_em(f, p1)))
                    &&& (char_em(f, p2) != '\'' ==> (r matches Err(e) && e.linha as int == final(self).linha_spec()))
                }
            }),
            old(self).posicao_spec() <= final(self).posicao_spec(),
            old(self).linha_spec() <= final(self).linha_spec(),
    {
        self.avancar();
        let c: char;
        if self.caractere_atual == '\\' {
            self.avancar();
            c = match self.caractere_atual {
                'n' => '\n',
                't' => '\t',
                '\'' => '\'',
                '\\' => '\\',
                _ => self.caractere_atual,
            };
            self.avancar();
        } else {
            c = self.caractere_atual;
            self.avancar();
        }
        if self.caractere_atual != '\'' {
            return Err(ErroLexico { linha: self.linha });
        }
        Ok(c)
    }

    /// Reads a delimited include path: the cursor stands on the opening
    /// delimiter; the path runs to the closing delimiter or to the end of
    /// input, and the cursor ends past the closing delimiter.
    pub fn ler_path_delimitado(&mut self, delimitador: char) -> (r: String)
        requires
            old(self).bem_formado(),
            old(self).posicao_spec() < old(self).fonte_spec().len(),
        ensures
            final(self).bem_formado(),
            final(self).fonte_spec() == old(self).fonte_spec(),
            ({
                let f = old(self).fonte_spec();
                let fim = fim_caminho(f, old(self).posicao_spec() + 1, delimitador);
                r@ == f.subrange(old(self).posicao_spec() + 1, fim) && final(self).posicao_spec()
                    == seguinte(f, fim)
            }),
            old(self).posicao_spec() <= final(self).posicao_spec(),
            old(self).linha_spec() <= final(self).linha_spec(),
    {
        let ghost f = self.fonte_spec();
        let ghost l0 = self.linha_spec();
        self.avancar();
        let ghost inicio = self.posicao_spec();
        let mut r = String::new();
        proof {
            assert(Seq::<char>::empty() =~= f.subrange(inicio, inicio));
        }
        loop
            invariant
                self.bem_formado(),
                self.fonte_spec() == f,
                0 <= inicio <= self.posicao_spec() <= f.len(),
                l0 <= self.linha_spec(),
                fim_caminho(f, inicio, delimitador) == fim_caminho(
                    f,
                    self.posicao_spec(),
                    delimitador,
                ),
                r@ == f.subrange(inicio, self.posicao_spec()),
            ensures
                l0 <= self.linha_spec(),
                self.bem_formado(),
                self.fonte_spec() == f,
                self.posicao_spec() == fim_caminho(f, inicio, delimitador),
                r@ == f.subrange(inicio, self.posicao_spec()),
            decreases f.len() - self.posicao_spec(),
        {
            let c = self.caractere_atual;
            if c == delimitador || c == '\0' {
                break ;
            }
            anexar_char(&mut r, c);
            proof {
                let p = self.posicao_spec();
                assert(f.subrange(inicio, p + 1) =~= f.subrange(inicio, p).push(f[p]));
            }
            self.avancar();
        }
        self.avancar();
        r
    }

    /// Skips the whitespace run under the cursor, newlines included.
    fn pular_espacos(&mut self)
        requires
            old(self).bem_formado(),
        ensures
            final(self).bem_formado(),
            final(self).fonte_spec() == old(self).fonte_spec(),
            final(self).posicao_spec() == fim_espacos(
                old(self).fonte_spec(),
                old(self).posicao_spec(),
            ),
            old(self).posicao_spec() <= final(self).posicao_spec(),
            old(self).linha_spec() <= final(self).linha_spec(),
    {
        let ghost f = self.fonte_spec();
        let ghost p0 = self.posicao_spec();
        let ghost l0 = self.linha_spec();
        loop
            invariant
                self.bem_formado(),
                self.fonte_spec() == f,
                p0 <= self.posicao_spec() <= f.len(),
                l0 <= self.linha_spec(),
                fim_espacos(f, p0) == fim_espacos(f, self.posicao_spec()),
            ensures
                p0 <= self.posicao_spec(),
                l0 <= self.linha_spec(),
                self.bem_formado(),
                self.fonte_spec() == f,
                self.posicao_spec() == fim_espacos(f, p0),
            decreases f.len() - self.posicao_spec(),
        {
            if !char_eh_espaco(self.caractere_atual) {
                break ;
            }
            self.avancar();
        }
    }

    /// Consumes the rest of the line under the cursor, its newline included;
    /// at the end of input it stops there.
    fn consumir_fim_linha(&mut self)
        requires
            old(self).bem_formado(),
        ensures
            final(self).bem_formado(),
            final(self).fonte_spec() == old(self).fonte_spec(),
            final(self).posicao_spec() == apos_linha(
                old(self).fonte_spec(),
                old(self).posicao_spec(),
            ),
            old(self).posicao_spec() <= final(self).posicao_spec(),
            old(self).linha_spec() <= final(self).linha_spec(),
    {
        let ghost f = self.fonte_spec();
        let ghost p0 = self.posicao_spec();
        let ghost l0 = self.linha_spec();
        loop
            invariant
                self.bem_formado(),
                self.fonte_spec() == f,
                p0 <= self.posicao_spec() <= f.len(),
                l0 <= self.linha_spec(),
                fim_linha_fonte(f, p0) == fim_linha_fonte(f, self.posicao_spec()),
            ensures
                p0 <= self.posicao_spec(),
                l0 <= self.linha_spec(),
                self.bem_formado(),
                self.fonte_spec() == f,
                self.posicao_spec() == fim_linha_fonte(f, p0),
            decreases f.len() - self.posicao_spec(),
        {
            let c = self.caractere_atual;
            if c == '\n' || c == '\0' {
                break ;
            }
            self.avancar();
        }
        if self.caractere_atual == '\n' {
            self.avancar();
        }
    }

    /// Reads a preprocessor directive: the cursor stands on the `#`. The
    /// command `include` expects a following `<...>`- or `"..."`-delimited
    /// path and yields the global or local include token carrying it; any
    /// other command yields a generic directive token carrying only the
    /// command text. The rest of the directive line, its newline included, is
    /// consumed and never surfaces as tokens.
    pub fn ler_diretiva_pre_processador(&mut self) -> (r: Token)
        requires
            old(self).bem_formado(),
        ensures
            final(self).bem_formado(),
            final(self).fonte_spec() == old(self).fonte_spec(),
            ({
                let f = old(self).fonte_spec();
                let c0 = fim_espacos(f, seguinte(f, old(self).posicao_spec()));
                let c1 = fim_identificador(f, c0);
                let comando = f.subrange(c0, c1);
                if comando != "include"@ {
                    r matches Token::Diretiva(s) && s@ == comando && final(self).posicao_spec()
                        == apos_linha(f, c1)
                } else {
                    let k = fim_espacos(f, c1);
                    if char_em(f, k) == '<' {
                        let fim = fim_caminho(f, k + 1, '>');
                        r matches Token::InclusaoGlobal(s) && s@ == f.subrange(k + 1, fim)
                            && final(self).posicao_spec() == apos_linha(f, seguinte(f, fim))
                    } else if char_em(f, k) == '"' {
                        let fim = fim_caminho(f, k + 1, '"');
                        r matches Token::InclusaoLocal(s) && s@ == f.subrange(k + 1, fim)
                            && final(self).posicao_spec() == apos_linha(f, seguinte(f, fim))
                    } else {
                        r is Invalido && final(self).posicao_spec() == apos_linha(f, k)
                    }
                }
            }),
            old(self).posicao_spec() < old(self).fonte_spec().len() ==> old(self).posicao_spec()
                < final(self).posicao_spec(),
            old(self).posicao_spec() <= final(self).posicao_spec(),
            old(self).linha_spec() <= final(self).linha_spec(),
    {
        self.avancar();
        self.pular_espacos();
        let comando = self.ler_identificador();
        if texto_igual(&comando, "include") {
            self.pular_espacos();
            if self.caractere_atual == '<' {
                let path = self.ler_path_delimitado('>');
                self.consumir_fim_linha();
                Token::InclusaoGlobal(path)
            } else if self.caractere_atual == '"' {
                let path = self.ler_path_delimitado('"');
                self.consumir_fim_linha();
                Token::InclusaoLocal(path)
            } else {
                self.consumir_fim_linha();
                Token::Invalido
            }
        } else {
            self.consumir_fim_linha();
            Token::Diretiva(comando)
        }
    }

    /// Produces the next token and the 1-based line it began on, after
    /// passing over whitespace (newlines excepted) and comments. Once the
    /// end-of-input sentinel is reached it is returned on every subsequent
    /// call. The only failure is a character literal missing its closing
    /// quote. The contract pins the token, its line tag and the cursor
    /// movement down exactly, anchored at `inicio_token`, where the token
    /// begins.
    pub fn prox_token(&mut self) -> (r: Result<(Token, usize), ErroLexico>)
        requires
            old(self).bem_formado(),
        ensures
            final(self).bem_formado(),
            final(self).fonte_spec() == old(self).fonte_spec(),
            old(self).posicao_spec() <= final(self).posicao_spec(),
            old(self).linha_spec() <= final(self).linha_spec(),
            (r matches Ok(tl) && !(tl.0 is Fundo)) ==> old(self).posicao_spec() < final(self).posicao_spec(),
            r matches Ok(tl) ==> old(self).linha_spec() <= tl.1 as int <= final(self).linha_spec(),
            ({
                let f = old(self).fonte_spec();
                let q = inicio_token(f, old(self).posicao_spec());
                let c1 = char_em(f, q);
                let c2 = char_em(f, q + 1);
                &&& (r matches Ok(tl) ==> tl.1 as int == linha_em(f, q))
                &&& (simbolo(c1, c2) matches Some(par) ==> (r matches Ok(tl) && tl.0 == par.0
                    && final(self).posicao_spec() == q + par.1))
                &&& (q == f.len() ==> (r matches Ok(tl) && tl.0 is Fundo
                    && final(self).posicao_spec() == q))
                &&& ((r matches Ok(tl) && tl.0 is Fundo) ==> q == f.len())
                &&& (q < f.len() && c1 == '\0' ==> (r matches Ok(tl) && tl.0 is Invalido
                    && final(self).posicao_spec() == q + 1))
                &&& (eh_digito(c1) ==> (r matches Ok(tl) && final(self).posicao_spec() == fim_numero(
                    f,
                    q,
                ) && (if eh_numero_float(f, q) {
                    tl.0 matches Token::NumeroFloat(s) && s@ == f.subrange(q, fim_numero(f, q))
                } else {
                    tl.0 matches Token::NumeroInt(s) && s@ == f.subrange(q, fim_numero(f, q))
                })))
                &&& ((eh_alfabetico_unicode(c1) || c1 == '_') && !eh_espaco_unicode(c1) && simbolo(
                    c1,
                    c2,
                ) is None && !eh_digito(c1) && c1 != '"' && c1 != '\'' && c1 != '#' && c1 != '/'
                    && c1 != '\0' ==> (r matches Ok(tl) && (tl.0 matches Token::Identificador(s)
                    && s@ == f.subrange(q, fim_identificador(f, q))) && final(self).posicao_spec()
                    == fim_identificador(f, q)))
                &&& (c1 == '"' ==> (r matches Ok(tl) && (tl.0 matches Token::Texto(s) && s@
                    == corpo_texto(f, seguinte(f, q)).0) && final(self).posicao_spec() == seguinte(
                    f,
                    corpo_texto(f, seguinte(f, q)).1,
                )))
                &&& (c1 == '\'' ==> ({
                    let p1 = seguinte(f, q);
                    if char_em(f, p1) == '\\' {
                        let p2 = seguinte(f, p1);
                        let p3 = seguinte(f, p2);
                        if char_em(f, p3) == '\'' {
                            r matches Ok(tl) && (tl.0 matches Token::ConteudoChar(c) && c
                                == escape_plica(char_em(f, p2))) && final(self).posicao_spec()
                                == seguinte(f, p3)
                        } else {
                            (r matches Err(e) && e.linha as int == final(self).linha_spec())
                                && final(self).posicao_spec() == p3
                        }
                    } else {
                        let p2 = seguinte(f, p1);
                        if char_em(f, p2) == '\'' {
                            r matches Ok(tl) && (tl.0 matches Token::ConteudoChar(c) && c
                                == char_em(f, p1)) && final(self).posicao_spec() == seguinte(f, p2)
                        } else {
                            (r matches Err(e) && e.linha as int == final(self).linha_spec())
                                && final(self).posicao_spec() == p2
                        }
                    }
                }))
                &&& (c1 == '#' ==> (r matches Ok(tl) && ({
                    let c0 = fim_espacos(f, seguinte(f, q));
                    let cfim = fim_identificador(f, c0);
                    let comando = f.subrange(c0, cfim);
                    if comando != "include"@ {
                        (tl.0 matches Token::Diretiva(s) && s@ == comando) && final(self).posicao_spec() == apos_linha(f, cfim)
                    } else {
                        let k = fim_espacos(f, cfim);
                        if char_em(f, k) == '<' {
                            let fim = fim_caminho(f, k + 1, '>');
                            (tl.0 matches Token::InclusaoGlobal(s) && s@ == f.subrange(k + 1, fim))
                                && final(self).posicao_spec() == apos_linha(f, seguinte(f, fim))
                        } else if char_em(f, k) == '"' {
                            let fim = fim_caminho(f, k + 1, '"');
                            (tl.0 matches Token::InclusaoLocal(s) && s@ == f.subrange(k + 1, fim))
                                && final(self).posicao_spec() == apos_linha(f, seguinte(f, fim))
                        } else {
                            tl.0 is Invalido && final(self).posicao_spec() == apos_linha(f, k)
                        }
                    }
                })))
                &&& (simbolo(c1, c2) is None && !eh_espaco_unicode(c1) && !eh_digito(c1)
                    && !eh_alfabetico_unicode(c1) && c1 != '_' && c1 != '"' && c1 != '\'' && c1
                    != '#' && c1 != '/' && c1 != '\0' ==> (r matches Ok(tl) && tl.0 is Invalido
                    && final(self).posicao_spec() == q + 1))
            }),
    {
        let ghost f = self.fonte_spec();
        let ghost p0 = self.posicao_spec();
        let ghost l0 = self.linha_spec();
        loop
            invariant
                f == old(self).fonte_spec(),
                p0 == old(self).posicao_spec(),
                l0 == old(self).linha_spec(),
                self.bem_formado(),
                self.fonte_spec() == f,
                0 <= p0 <= self.posicao_spec() <= f.len(),
                l0 <= self.linha_spec(),
                inicio_token(f, p0) == inicio_token(f, self.posicao_spec()),
            decreases f.len() - self.posicao_spec(),
        {
            let ghost pi = self.posicao_spec();
            loop
                invariant
                    self.bem_formado(),
                    self.fonte_spec() == f,
                    0 <= p0 <= self.posicao_spec() <= f.len(),
                    l0 <= self.linha_spec(),
                    pi <= self.posicao_spec(),
                    inicio_token(f, p0) == inicio_token(f, self.posicao_spec()),
                ensures
                    self.bem_formado(),
                    self.fonte_spec() == f,
                    0 <= p0 <= self.posicao_spec() <= f.len(),
                    l0 <= self.linha_spec(),
                    pi <= self.posicao_spec(),
                    inicio_token(f, p0) == inicio_token(f, self.posicao_spec()),
                    !(eh_espaco_unicode(self.caractere_spec()) && self.caractere_spec() != '\n'),
                decreases f.len() - self.posicao_spec(),
            {
                let c = self.caractere_atual;
                if !(char_eh_espaco(c) && c != '\n') {
                    break ;
                }
                self.avancar();
            }
            let linha_token = self.linha;
            let c = self.caractere_atual;
            let token: Token;
            if c == '\n' {
                token = Token::QuebraLinha;
            } else if c == ';' {
                token = Token::PontoVirgula;
            } else if c == '(' {
                token = Token::AbreParentesis;
            } else if c == ')' {
                token = Token::FechaParentesis;
            } else if c == '[' {
                token = Token::AbreColchete;
            } else if c == ']' {
                token = Token::FechaColchete;
            } else if c == '{' {
                token = Token::AbreChave;
            } else if c == '}' {
                token = Token::FechaChave;
            } else if c == '.' {
                token = Token::Ponto;
            } else if c == ',' {
                token = Token::Virgula;
            } else if c == '\'' {
                let conteudo = match self.ler_char() {
                    Ok(conteudo) => conteudo,
                    Err(e) => {
                        return Err(e);
                    },
                };
                token = Token::ConteudoChar(conteudo);
            } else if c == '"' {
                let texto = self.ler_texto();
                token = Token::Texto(texto);
            } else if c == '#' {
                let t = self.ler_diretiva_pre_processador();
                return Ok((t, linha_token));
            } else if c == '=' {
                if self.espiadinha() == '=' {
                    self.avancar();
                    token = Token::Comparar;
                } else {
                    token = Token::Igual;
                }
            } else if c == '+' {
                if self.espiadinha() == '+' {
                    self.avancar();
                    token = Token::Incremento;
                } else if self.espiadinha() == '=' {
                    self.avancar();
                    token = Token::SomaIgual;
                } else {
                    token = Token::Mais;
                }
            } else if c == '-' {
                if self.espiadinha() == '-' {
                    self.avancar();
                    token = Token::Decremento;
                } else if self.espiadinha() == '=' {
                    self.avancar();
                    token = Token::SubtracaoIgual;
                } else {
                    token = Token::Menos;
                }
            } else if c == '*' {
                if self.espiadinha() == '=' {
                    self.avancar();
                    token = Token::MultiplicacaoIgual;
                } else {
                    token = Token::Asterisco;
                }
            } else if c == '/' {
                if self.espiadinha() == '/' {
                    let ghost pc = self.posicao_spec();
                    loop
                        invariant
                            self.bem_formado(),
                            self.fonte_spec() == f,
                            0 <= p0 <= self.posicao_spec() <= f.len(),
                            l0 <= self.linha_spec(),
                            pc <= self.posicao_spec(),
                            char_em(f, pc) == '/',
                            fim_linha_fonte(f, pc) == fim_linha_fonte(f, self.posicao_spec()),
                            inicio_token(f, p0) == inicio_token(f, pc),
                        ensures
                            self.bem_formado(),
                            self.fonte_spec() == f,
                            0 <= p0 <= self.posicao_spec() <= f.len(),
                            l0 <= self.linha_spec(),
                            self.posicao_spec() == fim_linha_fonte(f, pc),
                            inicio_token(f, p0) == inicio_token(f, pc),
                        decreases f.len() - self.posicao_spec(),
                    {
                        let d = self.caractere_atual;
                        if d == '\n' || d == '\0' {
                            break ;
                        }
                        self.avancar();
                    }
                    proof {
                        lema_fim_linha_fonte_limites(f, pc + 1);
                        assert(inicio_token(f, pc) == inicio_token(f, self.posicao_spec()));
                    }
                    continue ;
                } else if self.espiadinha() == '*' {
                    let ghost pc = self.posicao_spec();
                    self.avancar();
                    self.avancar();
                    loop
                        invariant
                            self.bem_formado(),
                            self.fonte_spec() == f,
                            0 <= p0 <= self.posicao_spec() <= f.len(),
                            l0 <= self.linha_spec(),
                            pc < self.posicao_spec(),
                            char_em(f, pc) == '/',
                            char_em(f, pc + 1) == '*',
                            fim_comentario_bloco(f, pc + 2) == fim_comentario_bloco(
                                f,
                                self.posicao_spec(),
                            ),
                            inicio_token(f, p0) == inicio_token(f, pc),
                        ensures
                            self.bem_formado(),
                            self.fonte_spec() == f,
                            0 <= p0 <= self.posicao_spec() <= f.len(),
                            l0 <= self.linha_spec(),
                            pc < self.posicao_spec(),
                            char_em(f, pc) == '/',
                            char_em(f, pc + 1) == '*',
                            fim_comentario_bloco(f, pc + 2) == fim_comentario_bloco(
                                f,
                                self.posicao_spec(),
                            ),
                            inicio_token(f, p0) == inicio_token(f, pc),
                            (self.caractere_spec() == '*' && char_em(
                                f,
                                self.posicao_spec() + 1,
                            ) == '/') || self.caractere_spec() == '\0',
                        decreases f.len() - self.posicao_spec(),
                    {
                        let d = self.caractere_atual;
                        if (d == '*' && self.espiadinha() == '/') || d == '\0' {
                            break ;
                        }
                        self.avancar();
                    }
                    if self.caractere_atual == '*' && self.espiadinha() == '/' {
                        self.avancar();
                        self.avancar();
                    }
                    proof {
                        assert(self.posicao_spec() == fim_comentario_bloco(f, pc + 2));
                        assert(inicio_token(f, pc) == inicio_token(f, self.posicao_spec()));
                    }
                    continue ;
                } else if self.espiadinha() == '=' {
                    self.avancar();
                    token = Token::DivisaoIgual;
                } else {
                    token = Token::Divisao;
                }
            } else if c == '%' {
                if self.espiadinha() == '=' {
                    self.avancar();
                    token = Token::ModuloIgual;
                } else {
                    token = Token::Modulo;
                }
            } else if c == '&' {
                if self.espiadinha() == '&' {
                    self.avancar();
                    token = Token::EComercialDuplo;
                } else {
                    token = Token::EComercial;
                }
            } else if c == '|' {
                if self.espiadinha() == '|' {
                    self.avancar();
                    token = Token::BarraVerticalDupla;
                } else {
                    token = Token::BarraVertical;
                }
            } else if c == '>' {
                if self.espiadinha() == '=' {
                    self.avancar();
                    token = Token::MaiorOuIgual;
                } else if self.espiadinha() == '>' {
                    self.avancar();
                    token = Token::DeslocamentoDir;
                } else {
                    token = Token::Maior;
                }
            } else if c == '<' {
                if self.espiadinha() == '=' {
                    self.avancar();
                    token = Token::MenorOuIgual;
                } else if self.espiadinha() == '<' {
                    self.avancar();
                    token = Token::DeslocamentoEsq;
                } else {
                    token = Token::Menor;
                }
            } else if c == '!' {
                if self.espiadinha() == '=' {
                    self.avancar();
                    token = Token::Diferente;
                } else {
                    token = Token::Negacao;
                }
            } else if char_eh_digito(c) {
                proof {
                    lema_fim_numero_avanca(f, self.posicao_spec());
                }
                let t = self.ler_numero();
                return Ok((t, linha_token));
            } else if c == '\0' {
                if self.posicao < self.fonte.len() {
                    token = Token::Invalido;
                } else {
                    token = Token::Fundo;
                }
            } else if char_eh_alfabetico(c) || c == '_' {
                proof {
                    lema_fim_identificador_avanca(f, self.posicao_spec());
                }
                let identificador = self.ler_identificador();
                return Ok((Token::Identificador(identificador), linha_token));
            } else {
                token = Token::Invalido;
            }
            self.avancar();
            return Ok((token, linha_token));
        }
    }

    /// Lexes the whole remaining input into the buffer the parser consumes:
    /// the tokens in order, each with its line, ending with the end-of-input
    /// sentinel, which appears nowhere before the end.
    pub fn tokenizar(&mut self) -> (r: Result<Vec<(Token, usize)>, ErroLexico>)
        requires
            old(self).bem_formado(),
        ensures
            final(self).bem_formado(),
            r matches Ok(ts) ==> ts@.len() >= 1 && ts@.last().0 is Fundo && (forall|i: int|
                0 <= i < ts@.len() - 1 ==> !((#[trigger] ts@[i]).0 is Fundo)),
            r matches Ok(ts) ==> fluxo_de_tokens(
                old(self).fonte_spec(),
                old(self).posicao_spec(),
                ts@,
                0,
            ),
            r is Err ==> (forall|ts: Seq<(Token, usize)>|
                !fluxo_de_tokens(old(self).fonte_spec(), old(self).posicao_spec(), ts, 0)),
            old(self).posicao_spec() == old(self).fonte_spec().len() ==> (r matches Ok(ts)
                && ts@.len() == 1 && ts@[0].0 is Fundo && ts@[0].1 as int == old(self).linha_spec()),
    {
        let ghost f = self.fonte_spec();
        let ghost p0 = self.posicao_spec();
        let mut tokens: Vec<(Token, usize)> = Vec::new();
        loop
            invariant
                f == old(self).fonte_spec(),
                p0 == old(self).posicao_spec(),
                self.bem_formado(),
                self.fonte_spec() == f,
                forall|i: int| 0 <= i < tokens@.len() ==> !((#[trigger] tokens@[i]).0 is Fundo),
                forall|completo: Seq<(Token, usize)>|
                    (completo.len() >= tokens@.len() && completo.subrange(
                        0,
                        tokens@.len() as int,
                    ) =~= tokens@ && #[trigger] fluxo_de_tokens(
                        f,
                        self.posicao_spec(),
                        completo,
                        tokens@.len() as int,
                    )) ==> fluxo_de_tokens(f, p0, completo, 0),
                forall|completo: Seq<(Token, usize)>|
                    #[trigger] fluxo_de_tokens(f, p0, completo, 0) ==> fluxo_de_tokens(
                        f,
                        self.posicao_spec(),
                        completo,
                        tokens@.len() as int,
                    ),
                old(self).posicao_spec() == old(self).fonte_spec().len() ==> (tokens@.len() == 0
                    && self.caractere_spec() == '\0' && self.linha_spec() == old(self).linha_spec()
                    && self.posicao_spec() == old(self).posicao_spec()),
            decreases f.len() - self.posicao_spec(),
        {
            let ghost antes = *self;
            let ghost feitos = tokens@;
            proof {
                lema_inicio_token_parado(f, self.posicao_spec());
            }
            let par = match self.prox_token() {
                Ok(par) => par,
                Err(e) => {
                    proof {
                        assert forall|completo: Seq<(Token, usize)>| !fluxo_de_tokens(
                            f,
                            p0,
                            completo,
                            0,
                        ) by {
                            if fluxo_de_tokens(f, p0, completo, 0) {
                                assert(fluxo_de_tokens(
                                    f,
                                    antes.posicao_spec(),
                                    completo,
                                    feitos.len() as int,
                                ));
                            }
                        }
                    }
                    return Err(e);
                },
            };
            let fundo = par.0.eh_fundo();
            tokens.push(par);
            if fundo {
                proof {
                    assert(tokens@.subrange(0, feitos.len() as int) =~= feitos);
                    assert(fluxo_de_tokens(f, antes.posicao_spec(), tokens@, feitos.len() as int));
                }
                return Ok(tokens);
            }
            proof {
                assert forall|completo: Seq<(Token, usize)>|
                    #[trigger] fluxo_de_tokens(f, p0, completo, 0) implies fluxo_de_tokens(
                        f,
                        self.posicao_spec(),
                        completo,
                        tokens@.len() as int,
                    ) by {
                    if fluxo_de_tokens(f, p0, completo, 0) {
                        assert(fluxo_de_tokens(
                            f,
                            antes.posicao_spec(),
                            completo,
                            feitos.len() as int,
                        ));
                    }
                }
                assert forall|completo: Seq<(Token, usize)>|
                    (completo.len() >= tokens@.len() && completo.subrange(
                        0,
                        tokens@.len() as int,
                    ) =~= tokens@ && #[trigger] fluxo_de_tokens(
                        f,
                        self.posicao_spec(),
                        completo,
                        tokens@.len() as int,
                    )) implies fluxo_de_tokens(f, p0, completo, 0) by {
                    if completo.len() >= tokens@.len() && completo.subrange(
                        0,
                        tokens@.len() as int,
                    ) =~= tokens@ && fluxo_de_tokens(
                        f,
                        self.posicao_spec(),
                        completo,
                        tokens@.len() as int,
                    ) {
                        assert(completo.subrange(0, feitos.len() as int) =~= feitos);
                        assert(completo[feitos.len() as int] == tokens@[feitos.len() as int]);
                        assert(fluxo_de_tokens(
                            f,
                            antes.posicao_spec(),
                            completo,
                            feitos.len() as int,
                        ));
                    }
                }
            }
        }
    }
}

} // verus!

