use vstd::prelude::*;

use crate::errors::ErroRPG;
use crate::game::{armadura_com_nome, armadura_padrao_post, nome_armadura_padrao};
use crate::itens::{nome_revive, nome_vazio, Arma, Armadura, Consumivel, ItemTipo};
use crate::personagens::{equipamento_fora_do_inventario, Personagem};
use crate::traits::ItemComportamento;

verus! {

broadcast use vstd::std_specs::hash::group_hash_axioms;

/// An item keeps its id: a copy of an item has the id of the original.
pub proof fn lei_copia_mantem_id(item: ItemTipo, copia: ItemTipo)
    requires
        copia == item,
    ensures
        copia.id_spec() == item.id_spec(),
{
}

/// A character with no real weapon that equips a weapon of its own class,
/// which it does not carry and which is not named as the placeholder, does
/// so: the weapon is equipped and the inventory stays as it was.
pub proof fn lei_primeira_arma(
    arma: Arma,
    antes: Personagem,
    depois: Personagem,
    r: Result<bool, ErroRPG>,
)
    requires
        arma.classe == antes.classe,
        antes.arma.nome@ == nome_vazio(),
        arma.nome@ != nome_vazio(),
        !antes.inventario@.contains_key(arma.id),
        arma.usar_spec(antes, depois, r),
    ensures
        r == Ok::<bool, ErroRPG>(true),
        depois.arma.id == arma.id,
        depois.inventario@ == antes.inventario@,
{
}

/// A character with a real weapon that equips another weapon of its class,
/// with another name, moves the first one into its inventory: the inventory
/// grows by one entry, the first weapon under its own id.
pub proof fn lei_troca_de_arma(
    arma: Arma,
    antes: Personagem,
    depois: Personagem,
    r: Result<bool, ErroRPG>,
)
    requires
        arma.classe == antes.classe,
        antes.arma.nome@ != nome_vazio(),
        arma.nome@ != antes.arma.nome@,
        !antes.inventario@.contains_key(arma.id),
        !antes.inventario@.contains_key(antes.arma.id),
        arma.usar_spec(antes, depois, r),
    ensures
        r == Ok::<bool, ErroRPG>(true),
        depois.arma.id == arma.id,
        depois.inventario@.len() == antes.inventario@.len() + 1,
        depois.inventario@.contains_key(antes.arma.id),
        depois.inventario@[antes.arma.id] == ItemTipo::Arma(antes.arma),
        depois.inventario@[antes.arma.id].id_spec() == antes.arma.id,
{
    assert(antes.inventario@.dom().finite());
}

/// A weapon of another class than the character's, which the character
/// does not carry and whose name is not that of its weapon, is refused as
/// incompatible, and the character keeps its weapon and inventory.
pub proof fn lei_arma_incompativel(
    arma: Arma,
    antes: Personagem,
    depois: Personagem,
    r: Result<bool, ErroRPG>,
)
    requires
        arma.classe != antes.classe,
        arma.nome@ != antes.arma.nome@,
        !antes.inventario@.contains_key(arma.id),
        arma.usar_spec(antes, depois, r),
    ensures
        r is Err && r->Err_0 is ArmaIncompativel,
        depois.arma == antes.arma,
        depois.inventario == antes.inventario,
{
}

/// A dead character cannot use a consumable, which it does not carry, that
/// is not named "Revive".
pub proof fn lei_morto_sem_revive(
    c: Consumivel,
    antes: Personagem,
    depois: Personagem,
    r: Result<bool, ErroRPG>,
)
    requires
        antes.vida == 0,
        c.nome@ != nome_revive(),
        !antes.inventario@.contains_key(c.id),
        c.usar_spec(antes, depois, r),
    ensures
        r is Err && r->Err_0 is ItemNaoUsavel,
        depois == antes,
{
}

/// A "Revive" with a non-negative amount, which a dead character does not
/// carry, sets its life to exactly that amount.
pub proof fn lei_revive(c: Consumivel, antes: Personagem, depois: Personagem, r: Result<bool, ErroRPG>)
    requires
        antes.vida == 0,
        c.nome@ == nome_revive(),
        c.efeito_vida >= 0,
        !antes.inventario@.contains_key(c.id),
        c.usar_spec(antes, depois, r),
    ensures
        r == Ok::<bool, ErroRPG>(true),
        depois.vida == c.efeito_vida,
{
}

/// A healing consumable, which a living character does not carry, raises
/// its life by exactly the amount healed, where the sum fits in a `u32`.
pub proof fn lei_cura(c: Consumivel, antes: Personagem, depois: Personagem, r: Result<bool, ErroRPG>)
    requires
        antes.vida > 0,
        c.efeito_vida > 0,
        antes.vida + c.efeito_vida <= u32::MAX,
        !antes.inventario@.contains_key(c.id),
        c.usar_spec(antes, depois, r),
    ensures
        r == Ok::<bool, ErroRPG>(true),
        depois.vida == antes.vida + c.efeito_vida,
{
}

/// Asking twice for the default armor, from a catalog that has none, hands
/// out the same armor both times and leaves exactly one default armor in
/// the catalog.
pub proof fn lei_armadura_padrao_unica(
    c0: Map<u128, ItemTipo>,
    c1: Map<u128, ItemTipo>,
    c2: Map<u128, ItemTipo>,
    r1: Armadura,
    r2: Armadura,
)
    requires
        forall|k: u128| !armadura_com_nome(c0, k, nome_armadura_padrao()),
        armadura_padrao_post(c0, c1, r1),
        armadura_padrao_post(c1, c2, r2),
    ensures
        r2 == r1,
        c2.dom().filter(|k: u128| armadura_com_nome(c2, k, nome_armadura_padrao())) == set![r1.id],
        c2.dom().filter(|k: u128| armadura_com_nome(c2, k, nome_armadura_padrao())).len() == 1,
{
    assert(armadura_com_nome(c1, r1.id, nome_armadura_padrao()));
    assert(c2 == c1);
    let k = choose|k: u128| c1.contains_key(k) && c1[k] == ItemTipo::Armadura(r2);
    if k != r1.id {
        assert(armadura_com_nome(c0, k, nome_armadura_padrao()));
    }
    let s = c2.dom().filter(|k: u128| armadura_com_nome(c2, k, nome_armadura_padrao()));
    assert forall|j: u128| s.contains(j) <==> j == r1.id by {
        if j != r1.id && s.contains(j) {
            assert(armadura_com_nome(c0, j, nome_armadura_padrao()));
        }
    }
    assert(s =~= set![r1.id]);
}

/// Using an item keeps the gear out of the inventory, where the weapon, the
/// armor and the item have distinct ids.
pub proof fn lei_usar_mantem_equipamento_fora(
    item: ItemTipo,
    antes: Personagem,
    depois: Personagem,
    r: Result<bool, ErroRPG>,
)
    requires
        equipamento_fora_do_inventario(antes),
        antes.arma.id != antes.armadura.id,
        item.id_spec() != antes.arma.id,
        item.id_spec() != antes.armadura.id,
        item.usar_spec(antes, depois, r),
    ensures
        equipamento_fora_do_inventario(depois),
{
}

} // verus!
