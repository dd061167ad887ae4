use std::collections::HashMap;
use vstd::prelude::*;

use crate::errors::ErroRPG;
use crate::personagens::Personagem;

verus! {

broadcast use vstd::std_specs::hash::group_hash_axioms;

/// What every item offers: its name, id, kind and description, and the
/// change it makes to a character that uses it.
pub trait ItemComportamento {
    /// The item's name.
    spec fn nome_spec(&self) -> Seq<char>;

    /// The item's id.
    spec fn id_spec(&self) -> u128;

    /// The label of the item's kind.
    spec fn tipo_spec(&self) -> Seq<char>;

    /// The item's description.
    spec fn descricao_spec(&self) -> Seq<char>;

    /// How using the item relates the character before, the character after
    /// and the result.
    spec fn usar_spec(&self, antes: Personagem, depois: Personagem, r: Result<bool, ErroRPG>) -> bool;

    fn get_nome(&self) -> (r: String)
        ensures
            r@ == self.nome_spec(),
    ;

    fn get_id(&self) -> (r: u128)
        ensures
            r == self.id_spec(),
    ;

    fn get_tipo(&self) -> (r: &str)
        ensures
            r@ == self.tipo_spec(),
    ;

    fn exibir_descricao(&self) -> (r: String)
        ensures
            r@ == self.descricao_spec(),
    ;

    fn usar(&self, personagem: &mut Personagem) -> (r: Result<bool, ErroRPG>)
        ensures
            self.usar_spec(*old(personagem), *final(personagem), r),
    ;
}

/// A value with an id, which can be looked up by that id in a collection.
pub trait Identificavel {
    /// The value's id.
    spec fn id_view(&self) -> u128;

    fn id(&self) -> (r: u128)
        ensures
            r == self.id_view(),
    ;

    /// The entry of `colecao` under `id`, if there is one.
    fn buscar_item_por_id<'a, T>(colecao: &'a HashMap<u128, T>, id: &u128) -> (r: Option<&'a T>)
        ensures
            match r {
                Some(v) => colecao@.contains_key(*id) && *v == colecao@[*id],
                None => !colecao@.contains_key(*id),
            },
    {
        colecao.get(id)
    }
}

} // verus!
