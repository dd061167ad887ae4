use vstd::prelude::*;
use vstd::string::*;

use crate::itens::{texto_efeito, ItemTipo};
use crate::texto::{decimal, decimal_com_sinal, texto_de_id, texto_i32, texto_u32, texto_uuid};

verus! {

/// The entry that lists an item: its id, then its name and figures on one line.
pub open spec fn linha_item(item: ItemTipo) -> Seq<char> {
    match item {
        ItemTipo::Armadura(a) => "ID: "@ + texto_de_id(a.id) + " \nNome: "@ + a.nome@
            + ", Defesa: "@ + decimal(a.defesa as nat) + ", Raridade: "@ + a.raridade@,
        ItemTipo::Arma(a) => "ID: "@ + texto_de_id(a.id) + " \nNome: "@ + a.nome@ + ", Dano: "@
            + decimal(a.dano as nat) + ", Raridade: "@ + a.raridade@ + ", Efeito: "@
            + texto_efeito(a.efeito),
        ItemTipo::Consumivel(c) => "ID: "@ + texto_de_id(c.id) + " \nNome: "@ + c.nome@
            + ", Cura: "@ + decimal_com_sinal(c.efeito_vida as int) + ", Descricao: "@
            + c.descricao@,
    }
}

/// The entry that lists `item` in an inventory or in the catalog.
pub fn linha_listagem(item: &ItemTipo) -> (r: String)
    ensures
        r@ == linha_item(*item),
{
    match item {
        ItemTipo::Armadura(a) => {
            let mut s = String::from_str("ID: ");
            s.append(texto_uuid(a.id).as_str());
            s.append(" \nNome: ");
            s.append(a.nome.as_str());
            s.append(", Defesa: ");
            s.append(texto_u32(a.defesa).as_str());
            s.append(", Raridade: ");
            s.append(a.raridade.as_str());
            s
        },
        ItemTipo::Arma(a) => {
            let mut s = String::from_str("ID: ");
            s.append(texto_uuid(a.id).as_str());
            s.append(" \nNome: ");
            s.append(a.nome.as_str());
            s.append(", Dano: ");
            s.append(texto_u32(a.dano).as_str());
            s.append(", Raridade: ");
            s.append(a.raridade.as_str());
            s.append(", Efeito: ");
            s.append(a.efeito.as_string().as_str());
            s
        },
        ItemTipo::Consumivel(c) => {
            let mut s = String::from_str("ID: ");
            s.append(texto_uuid(c.id).as_str());
            s.append(" \nNome: ");
            s.append(c.nome.as_str());
            s.append(", Cura: ");
            s.append(texto_i32(c.efeito_vida).as_str());
            s.append(", Descricao: ");
            s.append(c.descricao.as_str());
            s
        },
    }
}

} // verus!
