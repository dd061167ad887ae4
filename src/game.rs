use std::collections::HashMap;
use vstd::prelude::*;
use vstd::string::*;

use crate::errors::ErroRPG;
use crate::itens::{nome_vazio, Arma, Armadura, Consumivel, Efeito, ItemTipo};
use crate::personagens::{atributos_base, Classe, Personagem};
use crate::texto::{texto_de_id, texto_uuid};
use crate::traits::ItemComportamento;

verus! {

broadcast use vstd::std_specs::hash::group_hash_axioms;

/// The game: the characters, by id, the catalog of items, by id, and the
/// place where the characters are saved.
pub struct Game {
    personagens: HashMap<u128, Personagem>,
    itens: HashMap<u128, ItemTipo>,
    persistencia_path: String,
}

impl Game {
    /// The characters, by id.
    pub closed spec fn personagens_view(&self) -> Map<u128, Personagem> {
        self.personagens@
    }

    /// The catalog of items, by id.
    pub closed spec fn itens_view(&self) -> Map<u128, ItemTipo> {
        self.itens@
    }

    /// The place where the characters are saved.
    pub closed spec fn caminho_view(&self) -> Seq<char> {
        self.persistencia_path@
    }

    /// A game with no characters and an empty catalog, saved at `caminho`.
    pub fn novo(caminho: String) -> (r: Game)
        ensures
            r.personagens_view() == Map::<u128, Personagem>::empty(),
            r.itens_view() == Map::<u128, ItemTipo>::empty(),
            r.caminho_view() == caminho@,
    {
        Game { personagens: HashMap::new(), itens: HashMap::new(), persistencia_path: caminho }
    }

    /// The game that a saved record restores: its characters, saved at
    /// `caminho`, with an empty catalog, which is never saved.
    pub fn restaurar(personagens: HashMap<u128, Personagem>, caminho: String) -> (r: Game)
        ensures
            r.personagens_view() == personagens@,
            r.itens_view() == Map::<u128, ItemTipo>::empty(),
            r.caminho_view() == caminho@,
    {
        Game { personagens, itens: HashMap::new(), persistencia_path: caminho }
    }

    /// The characters, by id: what a save writes.
    pub fn get_personagens(&self) -> (r: &HashMap<u128, Personagem>)
        ensures
            r@ == self.personagens_view(),
    {
        &self.personagens
    }

    /// The place where the game is saved.
    pub fn get_caminho(&self) -> (r: &String)
        ensures
            r@ == self.caminho_view(),
    {
        &self.persistencia_path
    }

    /// The catalog, by id.
    pub fn get_itens(&self) -> (r: &HashMap<u128, ItemTipo>)
        ensures
            r@ == self.itens_view(),
    {
        &self.itens
    }

    /// The first item of the catalog, in its own order, named `nome`.
    pub fn procurar_item_nome(&self, nome: &String) -> (r: Result<ItemTipo, ErroRPG>)
        ensures
            match r {
                Ok(item) => item.nome_spec() == nome@ && self.itens_view().values().contains(item),
                Err(e) => {
                    &&& e is ItemNaoEncontrado
                    &&& e->ItemNaoEncontrado_0@ == nome@
                    &&& forall|k: u128| #[trigger]
                        self.itens_view().contains_key(k) ==> self.itens_view()[k].nome_spec()
                            != nome@
                },
            },
    {
        for item in it: self.itens.values()
            invariant
                forall|i: int| 0 <= i < it.index() ==> (#[trigger] it.seq()[i]).nome_spec() != nome@,
        {
            if item.get_nome() == *nome {
                return Ok(item.clone());
            }
        }
        proof {
            assert forall|k: u128| #[trigger]
                self.itens_view().contains_key(k) implies self.itens_view()[k].nome_spec()
                    != nome@ by {
                assert(self.itens@.values().contains(self.itens@[k]));
            }
        }
        Err(ErroRPG::ItemNaoEncontrado(nome.clone()))
    }
}

/// The name of the armor that a new character is given.
pub open spec fn nome_armadura_padrao() -> Seq<char> {
    "Armadura de Couro"@
}

/// Whether `itens` holds, under `k`, an armor named `nome`.
pub open spec fn armadura_com_nome(itens: Map<u128, ItemTipo>, k: u128, nome: Seq<char>) -> bool {
    &&& itens.contains_key(k)
    &&& itens[k] is Armadura
    &&& itens[k]->Armadura_0.nome@ == nome
}

/// How asking for the default armor relates the catalog before, the catalog
/// after and the armor handed out: the catalog's own default armor where it
/// has one, else a new one, which the catalog then holds.
pub open spec fn armadura_padrao_post(
    antes: Map<u128, ItemTipo>,
    depois: Map<u128, ItemTipo>,
    r: Armadura,
) -> bool {
    &&& r.nome@ == nome_armadura_padrao()
    &&& if exists|k: u128| armadura_com_nome(antes, k, nome_armadura_padrao()) {
        &&& depois == antes
        &&& exists|k: u128| antes.contains_key(k) && antes[k] == ItemTipo::Armadura(r)
    } else {
        &&& r.defesa == 10
        &&& r.raridade@ == "Comum"@
        &&& depois == antes.insert(r.id, ItemTipo::Armadura(r))
    }
}

/// The character that a new game character is: its name, class and stats,
/// at level 1, with the placeholder weapon and armor and nothing carried.
pub open spec fn personagem_criado(p: Personagem, nome: Seq<char>, classe: Classe, vida: u32, forca: u32) -> bool {
    &&& p.nome@ == nome
    &&& p.classe == classe
    &&& (p.vida, p.forca) == (if vida == 0 && forca == 0 {
        atributos_base(classe)
    } else {
        (vida, forca)
    })
    &&& p.nivel == 1
    &&& p.arma.nome@ == nome_vazio()
    &&& p.armadura.nome@ == nome_vazio()
    &&& p.defesa == 0
    &&& p.inventario@ == Map::<u128, ItemTipo>::empty()
}

impl Game {
    /// Adds a new armor to the catalog and hands it out.
    pub fn criar_armadura(&mut self, nome: String, defesa: u32, raridade: String) -> (r: Armadura)
        ensures
            r.nome == nome,
            r.defesa == defesa,
            r.raridade == raridade,
            final(self).itens_view() == old(self).itens_view().insert(r.id, ItemTipo::Armadura(r)),
            final(self).personagens_view() == old(self).personagens_view(),
            final(self).caminho_view() == old(self).caminho_view(),
    {
        let armadura = Armadura::new(nome, defesa, raridade);
        self.itens.insert(armadura.id, ItemTipo::Armadura(armadura.clone()));
        armadura
    }

    /// Adds a new weapon to the catalog and hands it out.
    pub fn criar_arma(
        &mut self,
        nome: String,
        dano: u32,
        classe: Classe,
        raridade: String,
        efeito: Efeito,
    ) -> (r: Arma)
        ensures
            r.nome == nome,
            r.dano == dano,
            r.classe == classe,
            r.raridade == raridade,
            r.efeito == efeito,
            final(self).itens_view() == old(self).itens_view().insert(r.id, ItemTipo::Arma(r)),
            final(self).personagens_view() == old(self).personagens_view(),
            final(self).caminho_view() == old(self).caminho_view(),
    {
        let arma = Arma::new(nome, dano, classe, raridade, efeito);
        self.itens.insert(arma.id, ItemTipo::Arma(arma.clone()));
        arma
    }

    /// Adds a new consumable to the catalog and hands it out.
    pub fn criar_consumivel(&mut self, nome: String, efeito_vida: i32, descricao: String) -> (r:
        Consumivel)
        ensures
            r.nome == nome,
            r.efeito_vida == efeito_vida,
            r.descricao == descricao,
            final(self).itens_view() == old(self).itens_view().insert(
                r.id,
                ItemTipo::Consumivel(r),
            ),
            final(self).personagens_view() == old(self).personagens_view(),
            final(self).caminho_view() == old(self).caminho_view(),
    {
        let consumivel = Consumivel::new(nome, efeito_vida, descricao);
        self.itens.insert(consumivel.id, ItemTipo::Consumivel(consumivel.clone()));
        consumivel
    }

    /// The catalog's default armor, which is added to it first where it has none.
    pub fn armadura_padrao(&mut self) -> (r: Armadura)
        ensures
            armadura_padrao_post(old(self).itens_view(), final(self).itens_view(), r),
            final(self).personagens_view() == old(self).personagens_view(),
            final(self).caminho_view() == old(self).caminho_view(),
    {
        let alvo = String::from_str("Armadura de Couro");
        for item in it: self.itens.values()
            invariant
                alvo@ == nome_armadura_padrao(),
                forall|i: int|
                    0 <= i < it.index() ==> !((#[trigger] it.seq()[i]) is Armadura && it.seq()[i]->Armadura_0.nome@
                        == alvo@),
        {
            if let ItemTipo::Armadura(a) = item {
                if a.nome == alvo {
                    proof {
                        assert(self.itens@.values().contains(*item));
                        let k = choose|k: u128|
                            self.itens@.contains_key(k) && self.itens@[k] == *item;
                        assert(armadura_com_nome(self.itens@, k, nome_armadura_padrao()));
                    }
                    return a.clone();
                }
            }
        }
        proof {
            assert forall|k: u128| !armadura_com_nome(self.itens@, k, nome_armadura_padrao()) by {
                if self.itens@.contains_key(k) {
                    assert(self.itens@.values().contains(self.itens@[k]));
                }
            }
        }
        let nova = Armadura::new(alvo, 10, String::from_str("Comum"));
        self.itens.insert(nova.id, ItemTipo::Armadura(nova.clone()));
        nova
    }

    /// The catalog's item with id `id`.
    pub fn procurar_item_id(&self, id: u128) -> (r: Result<&ItemTipo, ErroRPG>)
        ensures
            match r {
                Ok(item) => self.itens_view().contains_key(id) && *item == self.itens_view()[id],
                Err(e) => !self.itens_view().contains_key(id) && e is ItemNaoEncontrado
                    && e->ItemNaoEncontrado_0@ == texto_de_id(id),
            },
    {
        match self.itens.get(&id) {
            Some(item) => Ok(item),
            None => Err(ErroRPG::ItemNaoEncontrado(texto_uuid(id))),
        }
    }

    /// The character with id `id`.
    pub fn get_personagem(&self, id: u128) -> (r: Result<&Personagem, ErroRPG>)
        ensures
            match r {
                Ok(p) => self.personagens_view().contains_key(id) && *p
                    == self.personagens_view()[id],
                Err(e) => !self.personagens_view().contains_key(id) && e
                    == ErroRPG::PersonagemNaoEncontrado(id),
            },
    {
        match self.personagens.get(&id) {
            Some(p) => Ok(p),
            None => Err(ErroRPG::PersonagemNaoEncontrado(id)),
        }
    }

    /// Creates a character with the placeholder weapon and armor and adds
    /// it to the game; its id is returned. Where both `vida` and `forca`
    /// are zero, the class gives them.
    pub fn criar_personagem(&mut self, nome: String, classe: Classe, vida: u32, forca: u32) -> (r:
        u128)
        ensures
            final(self).personagens_view() == old(self).personagens_view().insert(
                r,
                final(self).personagens_view()[r],
            ),
            final(self).personagens_view()[r].id == r,
            personagem_criado(final(self).personagens_view()[r], nome@, classe, vida, forca),
            final(self).itens_view() == old(self).itens_view(),
            final(self).caminho_view() == old(self).caminho_view(),
    {
        let p = Personagem::new(nome, vida, forca, classe, Armadura::nenhuma(), Arma::nenhuma(classe));
        let id = p.id;
        self.personagens.insert(id, p);
        id
    }

    /// Uses the catalog's item `item_id` on the character `personagem_id`:
    /// the character is changed as the item's own use says, the catalog not.
    pub fn usar_item(&mut self, personagem_id: u128, item_id: u128) -> (r: Result<bool, ErroRPG>)
        ensures
            final(self).itens_view() == old(self).itens_view(),
            final(self).caminho_view() == old(self).caminho_view(),
            !old(self).personagens_view().contains_key(personagem_id) ==> {
                &&& r == Err::<bool, ErroRPG>(ErroRPG::PersonagemNaoEncontrado(personagem_id))
                &&& final(self).personagens_view() == old(self).personagens_view()
            },
            old(self).personagens_view().contains_key(personagem_id) && !old(
                self,
            ).itens_view().contains_key(item_id) ==> {
                &&& r is Err && r->Err_0 is ItemNaoEncontrado
                &&& r->Err_0->ItemNaoEncontrado_0@ == texto_de_id(item_id)
                &&& final(self).personagens_view() == old(self).personagens_view()
            },
            old(self).personagens_view().contains_key(personagem_id) && old(
                self,
            ).itens_view().contains_key(item_id) ==> {
                &&& final(self).personagens_view() == old(self).personagens_view().insert(
                    personagem_id,
                    final(self).personagens_view()[personagem_id],
                )
                &&& old(self).itens_view()[item_id].usar_spec(
                    old(self).personagens_view()[personagem_id],
                    final(self).personagens_view()[personagem_id],
                    r,
                )
            },
    {
        if !self.personagens.contains_key(&personagem_id) {
            return Err(ErroRPG::PersonagemNaoEncontrado(personagem_id));
        }
        let item = match self.itens.get(&item_id) {
            Some(i) => i.clone(),
            None => {
                return Err(ErroRPG::ItemNaoEncontrado(texto_uuid(item_id)));
            },
        };
        let mut p = match self.personagens.remove(&personagem_id) {
            Some(p) => p,
            None => {
                return Err(ErroRPG::PersonagemNaoEncontrado(personagem_id));
            },
        };
        let r = item.usar(&mut p);
        self.personagens.insert(personagem_id, p);
        proof {
            assert(self.personagens@ =~= old(self).personagens@.insert(personagem_id, p));
        }
        r
    }
}

} // verus!
