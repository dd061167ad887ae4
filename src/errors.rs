use vstd::prelude::*;

verus! {

/// The failures that the game's operations report to their callers.
#[derive(Debug)]
pub enum ErroRPG {
    PersonagemNaoEncontrado(u128),
    ItemNaoEncontrado(String),
    ErroPersistencia(String),
    EntradaInvalida(String),
    ItemNaoUsavel(String),
    ArmaIncompativel(String),
    ClasseInvalida,
    EfeitoInvalido,
}

} // verus!
