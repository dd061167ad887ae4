use std::collections::HashMap;
use vstd::prelude::*;

use crate::itens::{Arma, Armadura, ItemTipo};
use crate::texto::novo_id;

verus! {

broadcast use vstd::std_specs::hash::group_hash_axioms;

/// The class of a character: it decides which weapons the character can
/// equip and its life and strength when none are given.
#[derive(Clone, Copy, PartialEq, Eq, Structural, Debug)]
pub enum Classe {
    Guerreiro,
    Mago,
    Assassino,
}

/// The name under which a class is shown.
pub open spec fn nome_classe(c: Classe) -> Seq<char> {
    match c {
        Classe::Guerreiro => "Guerreiro"@,
        Classe::Mago => "Mago"@,
        Classe::Assassino => "Assassino"@,
    }
}

/// The life and strength that a class gives when none are chosen.
pub open spec fn atributos_base(c: Classe) -> (u32, u32) {
    match c {
        Classe::Guerreiro => (100, 15),
        Classe::Mago => (70, 20),
        Classe::Assassino => (60, 28),
    }
}

impl Classe {
    pub fn as_str(&self) -> (r: &str)
        ensures
            r@ == nome_classe(*self),
    {
        match self {
            Classe::Guerreiro => "Guerreiro",
            Classe::Mago => "Mago",
            Classe::Assassino => "Assassino",
        }
    }
}

/// The life and strength of a new character of class `classe`.
pub fn identificar_vida_forca(classe: Classe) -> (r: (u32, u32))
    ensures
        r == atributos_base(classe),
{
    match classe {
        Classe::Guerreiro => (100, 15),
        Classe::Mago => (70, 20),
        Classe::Assassino => (60, 28),
    }
}

/// A character: stats, the gear it wears and the items it carries, by id.
pub struct Personagem {
    pub id: u128,
    pub nome: String,
    pub vida: u32,
    pub forca: u32,
    pub nivel: u32,
    pub armadura: Armadura,
    pub defesa: u32,
    pub arma: Arma,
    pub classe: Classe,
    pub inventario: HashMap<u128, ItemTipo>,
}

/// What a character's gear and inventory keep: neither the weapon nor the
/// armor it wears is also stored in its inventory.
pub open spec fn equipamento_fora_do_inventario(p: Personagem) -> bool {
    &&& !p.inventario@.contains_key(p.arma.id)
    &&& !p.inventario@.contains_key(p.armadura.id)
}

impl Personagem {
    /// A new character at level 1 with an empty inventory. Where both life
    /// and strength are zero, the class gives them.
    pub fn new(
        nome: String,
        vida: u32,
        forca: u32,
        classe: Classe,
        armadura: Armadura,
        arma: Arma,
    ) -> (r: Self)
        ensures
            r.nome == nome,
            (r.vida, r.forca) == (if vida == 0 && forca == 0 {
                atributos_base(classe)
            } else {
                (vida, forca)
            }),
            r.nivel == 1,
            r.armadura == armadura,
            r.defesa == armadura.defesa,
            r.arma == arma,
            r.classe == classe,
            r.inventario@ == Map::<u128, ItemTipo>::empty(),
            equipamento_fora_do_inventario(r),
    {
        let (vida, forca) = if vida == 0 && forca == 0 {
            identificar_vida_forca(classe)
        } else {
            (vida, forca)
        };
        let defesa = armadura.get_defesa();
        Personagem {
            id: novo_id(),
            nome,
            vida,
            forca,
            nivel: 1,
            armadura,
            defesa,
            arma,
            classe,
            inventario: HashMap::new(),
        }
    }

    pub fn get_arma(&self) -> (r: &Arma)
        ensures
            *r == self.arma,
    {
        &self.arma
    }

    pub fn get_armadura(&self) -> (r: &Armadura)
        ensures
            *r == self.armadura,
    {
        &self.armadura
    }
}

} // verus!
