use rpg_game::errors::ErroRPG;
use rpg_game::game::Game;
use rpg_game::itens::{Arma, Armadura, Consumivel, Efeito, ItemTipo};
use rpg_game::personagens::{Classe, Personagem};
use rpg_game::traits::{Identificavel, ItemComportamento};

fn thorin() -> Personagem {
    Personagem::new(
        "Thorin".to_string(),
        0,
        0,
        Classe::Guerreiro,
        Armadura::nenhuma(),
        Arma::nenhuma(Classe::Guerreiro),
    )
}

fn espada(nome: &str, classe: Classe) -> Arma {
    Arma::new(nome.to_string(), 12, classe, "Comum".to_string(), Efeito::Fisico)
}

#[test]
fn copia_de_item_mantem_id() {
    let arma = espada("Espada", Classe::Guerreiro);
    let item = ItemTipo::Arma(arma.clone());
    let copia = item.clone();
    assert_eq!(arma.get_id(), arma.get_id());
    assert_eq!(copia.get_id(), item.get_id());
    assert_eq!(item.get_id(), arma.id);
    assert_eq!(copia.id(), arma.id());
}

#[test]
fn itens_novos_tem_ids_distintos() {
    let a = espada("Espada", Classe::Guerreiro);
    let b = espada("Espada", Classe::Guerreiro);
    assert_ne!(a.id, b.id);
}

#[test]
fn criar_guerreiro_sem_atributos() {
    let mut game = Game::novo("save.json".to_string());
    let id = game.criar_personagem("Thorin".to_string(), Classe::Guerreiro, 0, 0);
    let p = game.get_personagem(id).unwrap();
    assert_eq!(p.id, id);
    assert_eq!(p.nome, "Thorin");
    assert_eq!(p.vida, 100);
    assert_eq!(p.forca, 15);
    assert_eq!(p.nivel, 1);
    assert_eq!(p.arma.nome, "Nenhuma");
    assert_eq!(p.armadura.nome, "Nenhuma");
    assert_eq!(p.defesa, 0);
    assert!(p.inventario.is_empty());
}

#[test]
fn atributos_de_cada_classe() {
    let m = Personagem::new("M".to_string(), 0, 0, Classe::Mago, Armadura::nenhuma(), Arma::nenhuma(Classe::Mago));
    assert_eq!((m.vida, m.forca), (70, 20));
    let a = Personagem::new("A".to_string(), 0, 0, Classe::Assassino, Armadura::nenhuma(), Arma::nenhuma(Classe::Assassino));
    assert_eq!((a.vida, a.forca), (60, 28));
    let g = Personagem::new("G".to_string(), 50, 0, Classe::Guerreiro, Armadura::nenhuma(), Arma::nenhuma(Classe::Guerreiro));
    assert_eq!((g.vida, g.forca), (50, 0));
}

#[test]
fn equipar_duas_armas_e_uma_incompativel() {
    let mut game = Game::novo("save.json".to_string());
    let id = game.criar_personagem("Thorin".to_string(), Classe::Guerreiro, 0, 0);
    let w1 = game.criar_arma("Machado".to_string(), 20, Classe::Guerreiro, "Rara".to_string(), Efeito::Fisico);
    let w2 = game.criar_arma("Martelo".to_string(), 25, Classe::Guerreiro, "Epica".to_string(), Efeito::Congelamento);
    let w3 = game.criar_arma("Cajado".to_string(), 8, Classe::Mago, "Comum".to_string(), Efeito::Veneno(5));

    assert!(matches!(game.usar_item(id, w1.id), Ok(true)));
    assert_eq!(game.get_personagem(id).unwrap().arma.id, w1.id);
    assert!(game.get_personagem(id).unwrap().inventario.is_empty());

    assert!(matches!(game.usar_item(id, w2.id), Ok(true)));
    let p = game.get_personagem(id).unwrap();
    assert_eq!(p.arma.id, w2.id);
    assert_eq!(p.inventario.len(), 1);
    match p.inventario.get(&w1.id) {
        Some(ItemTipo::Arma(a)) => {
            assert_eq!(a.id, w1.id);
            assert_eq!(a.nome, "Machado");
            assert_eq!(a.dano, 20);
        }
        _ => panic!("the first weapon is not in the inventory"),
    }

    assert!(matches!(game.usar_item(id, w3.id), Err(ErroRPG::ArmaIncompativel(_))));
    let p = game.get_personagem(id).unwrap();
    assert_eq!(p.arma.id, w2.id);
    assert_eq!(p.inventario.len(), 1);
    assert!(p.inventario.contains_key(&w1.id));
}

#[test]
fn primeira_arma_nao_muda_inventario() {
    let mut p = thorin();
    let arma = espada("Espada", Classe::Guerreiro);
    assert!(matches!(arma.usar(&mut p), Ok(true)));
    assert_eq!(p.get_arma().id, arma.id);
    assert_eq!(p.inventario.len(), 0);
}

#[test]
fn arma_ja_em_uso_pelo_nome() {
    let mut p = thorin();
    let a = espada("Espada", Classe::Guerreiro);
    let b = espada("Espada", Classe::Guerreiro);
    assert!(matches!(a.usar(&mut p), Ok(true)));
    assert!(matches!(b.usar(&mut p), Err(ErroRPG::ItemNaoUsavel(_))));
    assert_eq!(p.arma.id, a.id);
}

#[test]
fn item_ja_no_inventario() {
    let mut p = thorin();
    let a = espada("Espada", Classe::Guerreiro);
    let b = espada("Lanca", Classe::Guerreiro);
    assert!(matches!(a.usar(&mut p), Ok(true)));
    assert!(matches!(b.usar(&mut p), Ok(true)));
    match a.usar(&mut p) {
        Err(ErroRPG::ItemNaoEncontrado(m)) => {
            assert_eq!(m, uuid::Uuid::from_u128(a.id).to_string());
            assert_eq!(m.len(), 36);
        }
        _ => panic!("expected the item to be refused as already carried"),
    }
    assert_eq!(p.arma.id, b.id);
}

#[test]
fn arma_de_outra_classe() {
    let mut p = thorin();
    let cajado = espada("Cajado", Classe::Mago);
    assert!(matches!(cajado.usar(&mut p), Err(ErroRPG::ArmaIncompativel(_))));
    assert_eq!(p.arma.nome, "Nenhuma");
    assert!(p.inventario.is_empty());
}

#[test]
fn trocar_armadura() {
    let mut p = thorin();
    let couro = Armadura::new("Couro".to_string(), 10, "Comum".to_string());
    let placas = Armadura::new("Placas".to_string(), 30, "Rara".to_string());
    assert!(matches!(couro.usar(&mut p), Ok(true)));
    assert_eq!(p.defesa, 10);
    assert!(p.inventario.is_empty());
    assert!(matches!(ItemTipo::Armadura(placas.clone()).usar(&mut p), Ok(true)));
    assert_eq!(p.defesa, 30);
    assert_eq!(p.get_armadura().id, placas.id);
    assert_eq!(p.inventario.len(), 1);
    assert!(matches!(p.inventario.get(&couro.id), Some(ItemTipo::Armadura(a)) if a.defesa == 10));
    assert!(matches!(placas.usar(&mut p), Err(ErroRPG::ItemNaoUsavel(_))));
}

#[test]
fn consumivel_em_morto_sem_revive() {
    let mut p = thorin();
    p.vida = 0;
    let pocao = Consumivel::new("Pocao".to_string(), 30, "Cura".to_string());
    assert!(matches!(pocao.usar(&mut p), Err(ErroRPG::ItemNaoUsavel(_))));
    assert_eq!(p.vida, 0);
}

#[test]
fn revive_define_vida() {
    let mut p = thorin();
    p.vida = 0;
    let revive = Consumivel::new("Revive".to_string(), 40, "Volta".to_string());
    assert!(matches!(revive.usar(&mut p), Ok(true)));
    assert_eq!(p.vida, 40);
    let revive_negativo = Consumivel::new("Revive".to_string(), -5, "".to_string());
    p.vida = 0;
    assert!(matches!(revive_negativo.usar(&mut p), Ok(true)));
    assert_eq!(p.vida, 0);
}

#[test]
fn cura_soma_vida() {
    let mut p = thorin();
    let pocao = Consumivel::new("Pocao".to_string(), 25, "Cura".to_string());
    assert!(matches!(pocao.usar(&mut p), Ok(true)));
    assert_eq!(p.vida, 125);
    let revive = Consumivel::new("Revive".to_string(), 7, "".to_string());
    assert!(matches!(revive.usar(&mut p), Ok(true)));
    assert_eq!(p.vida, 132);
}

#[test]
fn dano_de_consumivel_para_em_zero() {
    let mut p = thorin();
    let veneno = Consumivel::new("Veneno".to_string(), -30, "Dano".to_string());
    assert!(matches!(veneno.usar(&mut p), Ok(true)));
    assert_eq!(p.vida, 70);
    let forte = Consumivel::new("Acido".to_string(), -500, "Dano".to_string());
    assert!(matches!(forte.usar(&mut p), Ok(true)));
    assert_eq!(p.vida, 0);
}

#[test]
fn cura_limitada_ao_maior_u32() {
    let mut p = thorin();
    p.vida = u32::MAX - 1;
    let pocao = Consumivel::new("Pocao".to_string(), 10, "".to_string());
    assert!(matches!(pocao.usar(&mut p), Ok(true)));
    assert_eq!(p.vida, u32::MAX);
}
