//! The token model: the closed set of lexical categories the lexer emits.
//! Literal payloads keep their raw text; the lexer pairs every token with the
//! 1-based source line on which it began.

use vstd::prelude::*;

verus! {

/// One lexical unit of the source language.
#[derive(Debug)]
pub enum Token {
    Mais,
    Menos,
    Igual,

    PontoVirgula,
    AbreParentesis,
    FechaParentesis,
    AbreChave,
    FechaChave,
    AbreColchete,
    FechaColchete,
    Virgula,

    Incremento,
    Decremento,
    SomaIgual,
    SubtracaoIgual,
    MultiplicacaoIgual,
    DivisaoIgual,
    ModuloIgual,
    Asterisco,
    Divisao,
    Modulo,

    EComercial,
    EComercialDuplo,
    BarraVertical,
    BarraVerticalDupla,
    Maior,
    Menor,
    MaiorOuIgual,
    Comparar,
    MenorOuIgual,
    Diferente,
    Negacao,

    NumeroInt(String),
    NumeroFloat(String),
    Texto(String),
    ConteudoChar(char),
    Identificador(String),

    InclusaoGlobal(String),
    InclusaoLocal(String),
    Diretiva(String),

    Ponto,
    QuebraLinha,

    Invalido,
    Fundo,

    DeslocamentoEsq,
    DeslocamentoDir,
}

impl Token {
    /// Whether this token is the end-of-input sentinel.
    pub fn eh_fundo(&self) -> (r: bool)
        ensures
            r == (*self is Fundo),
    {
        match self {
            Token::Fundo => true,
            _ => false,
        }
    }
}

impl Clone for Token {
    /// A clone is equal to the original token, payload included.
    fn clone(&self) -> (res: Self)
        ensures
            res == *self,
    {
        match self {
            Token::Mais => Token::Mais,
            Token::Menos => Token::Menos,
            Token::Igual => Token::Igual,
            Token::PontoVirgula => Token::PontoVirgula,
            Token::AbreParentesis => Token::AbreParentesis,
            Token::FechaParentesis => Token::FechaParentesis,
            Token::AbreChave => Token::AbreChave,
            Token::FechaChave => Token::FechaChave,
            Token::AbreColchete => Token::AbreColchete,
            Token::FechaColchete => Token::FechaColchete,
            Token::Virgula => Token::Virgula,
            Token::Incremento => Token::Incremento,
            Token::Decremento => Token::Decremento,
            Token::SomaIgual => Token::SomaIgual,
            Token::SubtracaoIgual => Token::SubtracaoIgual,
            Token::MultiplicacaoIgual => Token::MultiplicacaoIgual,
            Token::DivisaoIgual => Token::DivisaoIgual,
            Token::ModuloIgual => Token::ModuloIgual,
            Token::Asterisco => Token::Asterisco,
            Token::Divisao => Token::Divisao,
            Token::Modulo => Token::Modulo,
            Token::EComercial => Token::EComercial,
            Token::EComercialDuplo => Token::EComercialDuplo,
            Token::BarraVertical => Token::BarraVertical,
            Token::BarraVerticalDupla => Token::BarraVerticalDupla,
            Token::Maior => Token::Maior,
            Token::Menor => Token::Menor,
            Token::MaiorOuIgual => Token::MaiorOuIgual,
            Token::Comparar => Token::Comparar,
            Token::MenorOuIgual => Token::MenorOuIgual,
            Token::Diferente => Token::Diferente,
            Token::Negacao => Token::Negacao,
            Token::NumeroInt(s) => Token::NumeroInt(s.clone()),
            Token::NumeroFloat(s) => Token::NumeroFloat(s.clone()),
            Token::Texto(s) => Token::Texto(s.clone()),
            Token::ConteudoChar(c) => Token::ConteudoChar(*c),
            Token::Identificador(s) => Token::Identificador(s.clone()),
            Token::InclusaoGlobal(s) => Token::InclusaoGlobal(s.clone()),
            Token::InclusaoLocal(s) => Token::InclusaoLocal(s.clone()),
            Token::Diretiva(s) => Token::Diretiva(s.clone()),
            Token::Ponto => Token::Ponto,
            Token::QuebraLinha => Token::QuebraLinha,
            Token::Invalido => Token::Invalido,
            Token::Fundo => Token::Fundo,
            Token::DeslocamentoEsq => Token::DeslocamentoEsq,
            Token::DeslocamentoDir => Token::DeslocamentoDir,
        }
    }
}

} // verus!
