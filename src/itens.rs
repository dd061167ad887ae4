use vstd::prelude::*;
use vstd::string::*;

use crate::errors::ErroRPG;
use crate::personagens::{nome_classe, Classe, Personagem};
use crate::traits::{Identificavel, ItemComportamento};
use crate::texto::{decimal, decimal_com_sinal, novo_id, texto_de_id, texto_i32, texto_u32, texto_uuid};

verus! {

/// A status or combat modifier carried by a weapon.
#[derive(Clone, Copy, PartialEq, Eq, Structural, Debug)]
pub enum Efeito {
    Fisico,
    Congelamento,
    Queimadura(u32, u32),
    Veneno(u32),
    Eletricidade(u32, u32),
    Sangramento(u32, u32),
    Enfraquecimento(u32),
}

/// The text that names an effect and its parameters.
pub open spec fn texto_efeito(e: Efeito) -> Seq<char> {
    match e {
        Efeito::Fisico => "Fisico"@,
        Efeito::Congelamento => "Congelamento"@,
        Efeito::Queimadura(dano, rodadas) => "Queimadura; Dano: "@ + decimal(dano as nat)
            + "; Rodadas: "@ + decimal(rodadas as nat),
        Efeito::Veneno(p) => "Veneno; Dano por rodada: "@ + decimal(p as nat) + "%"@,
        Efeito::Eletricidade(dano, p) => "Eletricidade; Dano do choque: "@ + decimal(dano as nat)
            + "; Probabilidade: "@ + decimal(p as nat) + "%"@,
        Efeito::Sangramento(dano, p) => "Sangramento; Dano: "@ + decimal(dano as nat)
            + "%; Probabilidade: "@ + decimal(p as nat) + "%"@,
        Efeito::Enfraquecimento(r) => "Enfraquecimento; Dano reduzido: "@ + decimal(r as nat)
            + "%"@,
    }
}

impl Efeito {
    pub fn as_string(&self) -> (r: String)
        ensures
            r@ == texto_efeito(*self),
    {
        match *self {
            Efeito::Fisico => String::from_str("Fisico"),
            Efeito::Congelamento => String::from_str("Congelamento"),
            Efeito::Queimadura(dano, rodadas) => {
                let mut s = String::from_str("Queimadura; Dano: ");
                s.append(texto_u32(dano).as_str());
                s.append("; Rodadas: ");
                s.append(texto_u32(rodadas).as_str());
                s
            },
            Efeito::Veneno(p) => {
                let mut s = String::from_str("Veneno; Dano por rodada: ");
                s.append(texto_u32(p).as_str());
                s.append("%");
                s
            },
            Efeito::Eletricidade(dano, p) => {
                let mut s = String::from_str("Eletricidade; Dano do choque: ");
                s.append(texto_u32(dano).as_str());
                s.append("; Probabilidade: ");
                s.append(texto_u32(p).as_str());
                s.append("%");
                s
            },
            Efeito::Sangramento(dano, p) => {
                let mut s = String::from_str("Sangramento; Dano: ");
                s.append(texto_u32(dano).as_str());
                s.append("%; Probabilidade: ");
                s.append(texto_u32(p).as_str());
                s.append("%");
                s
            },
            Efeito::Enfraquecimento(r) => {
                let mut s = String::from_str("Enfraquecimento; Dano reduzido: ");
                s.append(texto_u32(r).as_str());
                s.append("%");
                s
            },
        }
    }
}

/// A weapon: only characters of its class can equip it.
pub struct Arma {
    pub id: u128,
    pub nome: String,
    pub dano: u32,
    pub classe: Classe,
    pub efeito: Efeito,
    pub raridade: String,
}

/// A piece of armor: it gives its wearer its defense.
pub struct Armadura {
    pub id: u128,
    pub nome: String,
    pub defesa: u32,
    pub raridade: String,
}

/// A consumable: it changes its user's life by a signed amount.
pub struct Consumivel {
    pub id: u128,
    pub nome: String,
    pub efeito_vida: i32,
    pub descricao: String,
}

/// Any item of the game.
pub enum ItemTipo {
    Arma(Arma),
    Armadura(Armadura),
    Consumivel(Consumivel),
}

impl Clone for Arma {
    fn clone(&self) -> (r: Self)
        ensures
            r == *self,
    {
        Arma {
            id: self.id,
            nome: self.nome.clone(),
            dano: self.dano,
            classe: self.classe,
            efeito: self.efeito,
            raridade: self.raridade.clone(),
        }
    }
}

impl Clone for Armadura {
    fn clone(&self) -> (r: Self)
        ensures
            r == *self,
    {
        Armadura {
            id: self.id,
            nome: self.nome.clone(),
            defesa: self.defesa,
            raridade: self.raridade.clone(),
        }
    }
}

impl Clone for Consumivel {
    fn clone(&self) -> (r: Self)
        ensures
            r == *self,
    {
        Consumivel {
            id: self.id,
            nome: self.nome.clone(),
            efeito_vida: self.efeito_vida,
            descricao: self.descricao.clone(),
        }
    }
}

impl Clone for ItemTipo {
    fn clone(&self) -> (r: Self)
        ensures
            r == *self,
    {
        match self {
            ItemTipo::Arma(a) => ItemTipo::Arma(a.clone()),
            ItemTipo::Armadura(a) => ItemTipo::Armadura(a.clone()),
            ItemTipo::Consumivel(c) => ItemTipo::Consumivel(c.clone()),
        }
    }
}

/// The name that marks the placeholder weapon or armor, worn when nothing is.
pub open spec fn nome_vazio() -> Seq<char> {
    "Nenhuma"@
}

/// The name of the one consumable that can be used by a dead character.
pub open spec fn nome_revive() -> Seq<char> {
    "Revive"@
}

/// The description of a piece of armor.
pub open spec fn descricao_armadura(a: Armadura) -> Seq<char> {
    "Nome: "@ + a.nome@ + " \nDefesa: "@ + decimal(a.defesa as nat) + " \nRaridade: "@
        + a.raridade@
}

/// The description of a weapon.
pub open spec fn descricao_arma(a: Arma) -> Seq<char> {
    "Nome: "@ + a.nome@ + " \nDano: "@ + decimal(a.dano as nat) + " \nClasse: "@ + nome_classe(
        a.classe,
    ) + " \nEfeito: "@ + texto_efeito(a.efeito) + " \nRaridade: "@ + a.raridade@
}

/// The description of a consumable.
pub open spec fn descricao_consumivel(c: Consumivel) -> Seq<char> {
    "Nome: "@ + c.nome@ + " \nEfeito: "@ + decimal_com_sinal(c.efeito_vida as int)
        + " \nDescricao: "@ + c.descricao@
}

impl Armadura {
    /// A new piece of armor with a fresh id.
    pub fn new(nome: String, defesa: u32, raridade: String) -> (r: Self)
        ensures
            r.nome == nome,
            r.defesa == defesa,
            r.raridade == raridade,
    {
        Armadura { id: novo_id(), nome, defesa, raridade }
    }

    /// The placeholder worn when no armor is: no defense.
    pub fn nenhuma() -> (r: Self)
        ensures
            r.nome@ == nome_vazio(),
            r.defesa == 0,
            r.raridade@ == Seq::<char>::empty(),
    {
        Armadura::new(String::from_str("Nenhuma"), 0, String::new())
    }

    pub fn get_defesa(&self) -> (r: u32)
        ensures
            r == self.defesa,
    {
        self.defesa
    }

    pub fn get_raridade(&self) -> (r: String)
        ensures
            r == self.raridade,
    {
        self.raridade.clone()
    }
}

impl Arma {
    /// A new weapon with a fresh id.
    pub fn new(nome: String, dano: u32, classe: Classe, raridade: String, efeito: Efeito) -> (r:
        Self)
        ensures
            r.nome == nome,
            r.dano == dano,
            r.classe == classe,
            r.raridade == raridade,
            r.efeito == efeito,
    {
        Arma { id: novo_id(), nome, dano, classe, efeito, raridade }
    }

    /// The placeholder held when no weapon is: no damage, of the given class.
    pub fn nenhuma(classe: Classe) -> (r: Self)
        ensures
            r.nome@ == nome_vazio(),
            r.dano == 0,
            r.classe == classe,
            r.efeito == Efeito::Fisico,
            r.raridade@ == Seq::<char>::empty(),
    {
        Arma::new(String::from_str("Nenhuma"), 0, classe, String::new(), Efeito::Fisico)
    }

    pub fn get_dano(&self) -> (r: u32)
        ensures
            r == self.dano,
    {
        self.dano
    }

    pub fn get_classe(&self) -> (r: Classe)
        ensures
            r == self.classe,
    {
        self.classe
    }

    pub fn get_efeito(&self) -> (r: Efeito)
        ensures
            r == self.efeito,
    {
        self.efeito
    }

    pub fn get_raridade(&self) -> (r: String)
        ensures
            r == self.raridade,
    {
        self.raridade.clone()
    }
}

impl Consumivel {
    /// A new consumable with a fresh id.
    pub fn new(nome: String, efeito_vida: i32, descricao: String) -> (r: Self)
        ensures
            r.nome == nome,
            r.efeito_vida == efeito_vida,
            r.descricao == descricao,
    {
        Consumivel { id: novo_id(), nome, efeito_vida, descricao }
    }

    pub fn get_efeito_vida(&self) -> (r: i32)
        ensures
            r == self.efeito_vida,
    {
        self.efeito_vida
    }

    pub fn get_descricao(&self) -> (r: String)
        ensures
            r == self.descricao,
    {
        self.descricao.clone()
    }
}

broadcast use vstd::std_specs::hash::group_hash_axioms;

/// The fields of a character that no item changes.
pub open spec fn mesma_identidade(a: Personagem, b: Personagem) -> bool {
    &&& a.id == b.id
    &&& a.nome == b.nome
    &&& a.forca == b.forca
    &&& a.nivel == b.nivel
    &&& a.classe == b.classe
}

/// A life total brought into range: never below zero, at most `u32::MAX`.
pub open spec fn vida_limitada(v: int) -> u32 {
    if v < 0 {
        0
    } else if v > u32::MAX {
        u32::MAX
    } else {
        v as u32
    }
}

/// The failure of an item that its user already carries: the item is
/// named by its id.
pub open spec fn erro_ja_no_inventario(r: Result<bool, ErroRPG>, id: u128) -> bool {
    match r {
        Err(ErroRPG::ItemNaoEncontrado(m)) => m@ == texto_de_id(id),
        _ => false,
    }
}

/// The inventory after `anterior` is taken off: it is stored under its id,
/// unless it is the placeholder.
pub open spec fn guardar(
    inventario: Map<u128, ItemTipo>,
    nome_anterior: Seq<char>,
    id_anterior: u128,
    anterior: ItemTipo,
) -> Map<u128, ItemTipo> {
    if nome_anterior == nome_vazio() {
        inventario
    } else {
        inventario.insert(id_anterior, anterior)
    }
}

impl ItemComportamento for Armadura {
    open spec fn nome_spec(&self) -> Seq<char> {
        self.nome@
    }

    open spec fn id_spec(&self) -> u128 {
        self.id
    }

    open spec fn tipo_spec(&self) -> Seq<char> {
        "Armadura"@
    }

    open spec fn descricao_spec(&self) -> Seq<char> {
        descricao_armadura(*self)
    }

    open spec fn usar_spec(&self, antes: Personagem, depois: Personagem, r: Result<bool, ErroRPG>) -> bool {
        if antes.inventario@.contains_key(self.id) {
            depois == antes && erro_ja_no_inventario(r, self.id)
        } else if antes.armadura.nome@ == self.nome@ {
            depois == antes && r is Err && r->Err_0 is ItemNaoUsavel
        } else {
            &&& r == Ok::<bool, ErroRPG>(true)
            &&& mesma_identidade(antes, depois)
            &&& depois.vida == antes.vida
            &&& depois.arma == antes.arma
            &&& depois.armadura == *self
            &&& depois.defesa == self.defesa
            &&& depois.inventario@ == guardar(
                antes.inventario@,
                antes.armadura.nome@,
                antes.armadura.id,
                ItemTipo::Armadura(antes.armadura),
            )
        }
    }

    fn get_nome(&self) -> (r: String) {
        self.nome.clone()
    }

    fn get_id(&self) -> (r: u128) {
        self.id
    }

    fn get_tipo(&self) -> (r: &str) {
        "Armadura"
    }

    fn exibir_descricao(&self) -> (r: String) {
        let mut s = String::from_str("Nome: ");
        s.append(self.nome.as_str());
        s.append(" \nDefesa: ");
        s.append(texto_u32(self.defesa).as_str());
        s.append(" \nRaridade: ");
        s.append(self.raridade.as_str());
        s
    }

    fn usar(&self, personagem: &mut Personagem) -> (r: Result<bool, ErroRPG>) {
        if personagem.inventario.contains_key(&self.id) {
            return Err(ErroRPG::ItemNaoEncontrado(texto_uuid(self.id)));
        }
        if personagem.armadura.nome == self.nome {
            return Err(ErroRPG::ItemNaoUsavel(String::from_str("Esse item ja esta sendo usado")));
        }
        let vazio = String::from_str("Nenhuma");
        if !(personagem.armadura.nome == vazio) {
            let anterior = personagem.armadura.clone();
            personagem.inventario.insert(anterior.id, ItemTipo::Armadura(anterior));
        }
        personagem.armadura = self.clone();
        personagem.defesa = self.defesa;
        Ok(true)
    }
}

impl ItemComportamento for Arma {
    open spec fn nome_spec(&self) -> Seq<char> {
        self.nome@
    }

    open spec fn id_spec(&self) -> u128 {
        self.id
    }

    open spec fn tipo_spec(&self) -> Seq<char> {
        "Arma"@
    }

    open spec fn descricao_spec(&self) -> Seq<char> {
        descricao_arma(*self)
    }

    open spec fn usar_spec(&self, antes: Personagem, depois: Personagem, r: Result<bool, ErroRPG>) -> bool {
        if antes.inventario@.contains_key(self.id) {
            depois == antes && erro_ja_no_inventario(r, self.id)
        } else if antes.arma.nome@ == self.nome@ {
            depois == antes && r is Err && r->Err_0 is ItemNaoUsavel
        } else if antes.classe != self.classe {
            depois == antes && r is Err && r->Err_0 is ArmaIncompativel
        } else {
            &&& r == Ok::<bool, ErroRPG>(true)
            &&& mesma_identidade(antes, depois)
            &&& depois.vida == antes.vida
            &&& depois.armadura == antes.armadura
            &&& depois.defesa == antes.defesa
            &&& depois.arma == *self
            &&& depois.inventario@ == guardar(
                antes.inventario@,
                antes.arma.nome@,
                antes.arma.id,
                ItemTipo::Arma(antes.arma),
            )
        }
    }

    fn get_nome(&self) -> (r: String) {
        self.nome.clone()
    }

    fn get_id(&self) -> (r: u128) {
        self.id
    }

    fn get_tipo(&self) -> (r: &str) {
        "Arma"
    }

    fn exibir_descricao(&self) -> (r: String) {
        let mut s = String::from_str("Nome: ");
        s.append(self.nome.as_str());
        s.append(" \nDano: ");
        s.append(texto_u32(self.dano).as_str());
        s.append(" \nClasse: ");
        s.append(self.classe.as_str());
        s.append(" \nEfeito: ");
        s.append(self.efeito.as_string().as_str());
        s.append(" \nRaridade: ");
        s.append(self.raridade.as_str());
        s
    }

    fn usar(&self, personagem: &mut Personagem) -> (r: Result<bool, ErroRPG>) {
        if personagem.inventario.contains_key(&self.id) {
            return Err(ErroRPG::ItemNaoEncontrado(texto_uuid(self.id)));
        }
        if personagem.arma.nome == self.nome {
            return Err(ErroRPG::ItemNaoUsavel(String::from_str("Esse item ja esta sendo usado")));
        }
        if personagem.classe != self.classe {
            return Err(
                ErroRPG::ArmaIncompativel(
                    String::from_str("A classe da arma e diferente da classe do personagem!"),
                ),
            );
        }
        let vazio = String::from_str("Nenhuma");
        if !(personagem.arma.nome == vazio) {
            let anterior = personagem.arma.clone();
            personagem.inventario.insert(anterior.id, ItemTipo::Arma(anterior));
        }
        personagem.arma = self.clone();
        Ok(true)
    }
}

impl ItemComportamento for Consumivel {
    open spec fn nome_spec(&self) -> Seq<char> {
        self.nome@
    }

    open spec fn id_spec(&self) -> u128 {
        self.id
    }

    open spec fn tipo_spec(&self) -> Seq<char> {
        "Consumivel"@
    }

    open spec fn descricao_spec(&self) -> Seq<char> {
        descricao_consumivel(*self)
    }

    open spec fn usar_spec(&self, antes: Personagem, depois: Personagem, r: Result<bool, ErroRPG>) -> bool {
        if antes.inventario@.contains_key(self.id) {
            depois == antes && erro_ja_no_inventario(r, self.id)
        } else if antes.vida == 0 && self.nome@ != nome_revive() {
            depois == antes && r is Err && r->Err_0 is ItemNaoUsavel
        } else {
            &&& r == Ok::<bool, ErroRPG>(true)
            &&& mesma_identidade(antes, depois)
            &&& depois.vida == (if antes.vida == 0 {
                vida_limitada(self.efeito_vida as int)
            } else {
                vida_limitada(antes.vida + self.efeito_vida)
            })
            &&& depois.arma == antes.arma
            &&& depois.armadura == antes.armadura
            &&& depois.defesa == antes.defesa
            &&& depois.inventario == antes.inventario
        }
    }

    fn get_nome(&self) -> (r: String) {
        self.nome.clone()
    }

    fn get_id(&self) -> (r: u128) {
        self.id
    }

    fn get_tipo(&self) -> (r: &str) {
        "Consumivel"
    }

    fn exibir_descricao(&self) -> (r: String) {
        let mut s = String::from_str("Nome: ");
        s.append(self.nome.as_str());
        s.append(" \nEfeito: ");
        s.append(texto_i32(self.efeito_vida).as_str());
        s.append(" \nDescricao: ");
        s.append(self.descricao.as_str());
        s
    }

    fn usar(&self, personagem: &mut Personagem) -> (r: Result<bool, ErroRPG>) {
        if personagem.inventario.contains_key(&self.id) {
            return Err(ErroRPG::ItemNaoEncontrado(texto_uuid(self.id)));
        }
        if personagem.vida == 0 {
            if !(self.nome == String::from_str("Revive")) {
                return Err(ErroRPG::ItemNaoUsavel(String::from_str("O personagem ja esta morto")));
            }
            personagem.vida = if self.efeito_vida < 0 {
                0
            } else {
                self.efeito_vida as u32
            };
        } else {
            let v: i64 = personagem.vida as i64 + self.efeito_vida as i64;
            personagem.vida = if v < 0 {
                0
            } else if v > u32::MAX as i64 {
                u32::MAX
            } else {
                v as u32
            };
        }
        Ok(true)
    }
}

impl ItemComportamento for ItemTipo {
    open spec fn nome_spec(&self) -> Seq<char> {
        match self {
            ItemTipo::Arma(a) => a.nome_spec(),
            ItemTipo::Armadura(a) => a.nome_spec(),
            ItemTipo::Consumivel(c) => c.nome_spec(),
        }
    }

    open spec fn id_spec(&self) -> u128 {
        match self {
            ItemTipo::Arma(a) => a.id_spec(),
            ItemTipo::Armadura(a) => a.id_spec(),
            ItemTipo::Consumivel(c) => c.id_spec(),
        }
    }

    open spec fn tipo_spec(&self) -> Seq<char> {
        match self {
            ItemTipo::Arma(a) => a.tipo_spec(),
            ItemTipo::Armadura(a) => a.tipo_spec(),
            ItemTipo::Consumivel(c) => c.tipo_spec(),
        }
    }

    open spec fn descricao_spec(&self) -> Seq<char> {
        match self {
            ItemTipo::Arma(a) => a.descricao_spec(),
            ItemTipo::Armadura(a) => a.descricao_spec(),
            ItemTipo::Consumivel(c) => c.descricao_spec(),
        }
    }

    open spec fn usar_spec(&self, antes: Personagem, depois: Personagem, r: Result<bool, ErroRPG>) -> bool {
        match self {
            ItemTipo::Arma(a) => a.usar_spec(antes, depois, r),
            ItemTipo::Armadura(a) => a.usar_spec(antes, depois, r),
            ItemTipo::Consumivel(c) => c.usar_spec(antes, depois, r),
        }
    }

    fn get_nome(&self) -> (r: String) {
        match self {
            ItemTipo::Arma(a) => a.get_nome(),
            ItemTipo::Armadura(a) => a.get_nome(),
            ItemTipo::Consumivel(c) => c.get_nome(),
        }
    }

    fn get_id(&self) -> (r: u128) {
        match self {
            ItemTipo::Arma(a) => a.get_id(),
            ItemTipo::Armadura(a) => a.get_id(),
            ItemTipo::Consumivel(c) => c.get_id(),
        }
    }

    fn get_tipo(&self) -> (r: &str) {
        match self {
            ItemTipo::Arma(a) => a.get_tipo(),
            ItemTipo::Armadura(a) => a.get_tipo(),
            ItemTipo::Consumivel(c) => c.get_tipo(),
        }
    }

    fn exibir_descricao(&self) -> (r: String) {
        match self {
            ItemTipo::Arma(a) => a.exibir_descricao(),
            ItemTipo::Armadura(a) => a.exibir_descricao(),
            ItemTipo::Consumivel(c) => c.exibir_descricao(),
        }
    }

    fn usar(&self, personagem: &mut Personagem) -> (r: Result<bool, ErroRPG>) {
        match self {
            ItemTipo::Arma(a) => a.usar(personagem),
            ItemTipo::Armadura(a) => a.usar(personagem),
            ItemTipo::Consumivel(c) => c.usar(personagem),
        }
    }
}

impl Identificavel for Arma {
    open spec fn id_view(&self) -> u128 {
        self.id
    }

    fn id(&self) -> (r: u128) {
        self.id
    }
}

impl Identificavel for Armadura {
    open spec fn id_view(&self) -> u128 {
        self.id
    }

    fn id(&self) -> (r: u128) {
        self.id
    }
}

impl Identificavel for Consumivel {
    open spec fn id_view(&self) -> u128 {
        self.id
    }

    fn id(&self) -> (r: u128) {
        self.id
    }
}

impl Identificavel for ItemTipo {
    open spec fn id_view(&self) -> u128 {
        self.id_spec()
    }

    fn id(&self) -> (r: u128) {
        self.get_id()
    }
}

} // verus!
