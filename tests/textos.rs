use rpg_game::listagem::linha_listagem;
use rpg_game::entrada::{classe_de_opcao, efeito_de_opcao, interpretar_u32, interpretar_uuid, parametros_do_efeito};
use rpg_game::errors::ErroRPG;
use rpg_game::itens::{Arma, Armadura, Consumivel, Efeito, ItemTipo};
use rpg_game::personagens::{identificar_vida_forca, Classe};
use rpg_game::traits::ItemComportamento;

#[test]
fn textos_dos_efeitos() {
    assert_eq!(Efeito::Fisico.as_string(), "Fisico");
    assert_eq!(Efeito::Congelamento.as_string(), "Congelamento");
    assert_eq!(Efeito::Queimadura(5, 3).as_string(), "Queimadura; Dano: 5; Rodadas: 3");
    assert_eq!(Efeito::Veneno(12).as_string(), "Veneno; Dano por rodada: 12%");
    assert_eq!(Efeito::Eletricidade(40, 25).as_string(), "Eletricidade; Dano do choque: 40; Probabilidade: 25%");
    assert_eq!(Efeito::Sangramento(7, 100).as_string(), "Sangramento; Dano: 7%; Probabilidade: 100%");
    assert_eq!(Efeito::Enfraquecimento(0).as_string(), "Enfraquecimento; Dano reduzido: 0%");
    assert_eq!(Efeito::Veneno(4294967295).as_string(), "Veneno; Dano por rodada: 4294967295%");
}

#[test]
fn nomes_das_classes() {
    assert_eq!(Classe::Guerreiro.as_str(), "Guerreiro");
    assert_eq!(Classe::Mago.as_str(), "Mago");
    assert_eq!(Classe::Assassino.as_str(), "Assassino");
    assert_eq!(identificar_vida_forca(Classe::Mago), (70, 20));
}

#[test]
fn descricoes() {
    let armadura = Armadura::new("Malha".to_string(), 15, "Comum".to_string());
    assert_eq!(armadura.exibir_descricao(), "Nome: Malha \nDefesa: 15 \nRaridade: Comum");
    let arma = Arma::new("Adaga".to_string(), 9, Classe::Assassino, "Rara".to_string(), Efeito::Queimadura(2, 4));
    assert_eq!(
        arma.exibir_descricao(),
        "Nome: Adaga \nDano: 9 \nClasse: Assassino \nEfeito: Queimadura; Dano: 2; Rodadas: 4 \nRaridade: Rara"
    );
    let pocao = Consumivel::new("Veneno".to_string(), -12, "Dano".to_string());
    assert_eq!(pocao.exibir_descricao(), "Nome: Veneno \nEfeito: -12 \nDescricao: Dano");
    assert_eq!(ItemTipo::Consumivel(pocao).exibir_descricao(), "Nome: Veneno \nEfeito: -12 \nDescricao: Dano");
}

#[test]
fn opcoes_de_classe() {
    assert!(matches!(classe_de_opcao(0), Ok(Classe::Guerreiro)));
    assert!(matches!(classe_de_opcao(1), Ok(Classe::Mago)));
    assert!(matches!(classe_de_opcao(2), Ok(Classe::Assassino)));
    assert!(matches!(classe_de_opcao(3), Err(ErroRPG::ClasseInvalida)));
}

#[test]
fn opcoes_de_efeito() {
    assert!(matches!(parametros_do_efeito(0), Ok(0)));
    assert!(matches!(parametros_do_efeito(2), Ok(2)));
    assert!(matches!(parametros_do_efeito(6), Ok(1)));
    assert!(matches!(parametros_do_efeito(7), Err(ErroRPG::EfeitoInvalido)));
    assert!(matches!(efeito_de_opcao(2, 5, 3), Ok(Efeito::Queimadura(5, 3))));
    assert!(matches!(efeito_de_opcao(3, 9, 1), Ok(Efeito::Veneno(9))));
    assert!(matches!(efeito_de_opcao(5, 4, 30), Ok(Efeito::Sangramento(4, 30))));
    assert!(matches!(efeito_de_opcao(1, 4, 30), Ok(Efeito::Congelamento)));
    assert!(matches!(efeito_de_opcao(7, 0, 0), Err(ErroRPG::EfeitoInvalido)));
}

#[test]
fn numeros_digitados() {
    assert!(matches!(interpretar_u32("0"), Ok(0)));
    assert!(matches!(interpretar_u32("120"), Ok(120)));
    assert!(matches!(interpretar_u32("4294967295"), Ok(4294967295)));
    assert!(matches!(interpretar_u32("4294967296"), Err(ErroRPG::EntradaInvalida(_))));
    assert!(matches!(interpretar_u32(""), Err(ErroRPG::EntradaInvalida(_))));
    assert!(matches!(interpretar_u32("12a"), Err(ErroRPG::EntradaInvalida(_))));
    assert!(matches!(interpretar_u32("-3"), Err(ErroRPG::EntradaInvalida(_))));
}

#[test]
fn ids_digitados() {
    assert!(matches!(
        interpretar_uuid("a1a2a3a4-b1b2-c1c2-d1d2-d3d4d5d6d7d8"),
        Ok(0xa1a2a3a4b1b2c1c2d1d2d3d4d5d6d7d8)
    ));
    match interpretar_uuid("nada") {
        Err(ErroRPG::EntradaInvalida(m)) => assert_eq!(m, "UUID invalido: nada"),
        _ => panic!("expected invalid input"),
    }
}

#[test]
fn linhas_da_listagem() {
    let mut armadura = Armadura::new("Malha".to_string(), 15, "Comum".to_string());
    armadura.id = 0x0123456789abcdef0011223344556677;
    assert_eq!(
        linha_listagem(&ItemTipo::Armadura(armadura)),
        "ID: 01234567-89ab-cdef-0011-223344556677 \nNome: Malha, Defesa: 15, Raridade: Comum"
    );
    let mut arma = Arma::new("Adaga".to_string(), 9, Classe::Assassino, "Rara".to_string(), Efeito::Veneno(3));
    arma.id = 1;
    assert_eq!(
        linha_listagem(&ItemTipo::Arma(arma)),
        "ID: 00000000-0000-0000-0000-000000000001 \nNome: Adaga, Dano: 9, Raridade: Rara, Efeito: Veneno; Dano por rodada: 3%"
    );
    let mut pocao = Consumivel::new("Pocao".to_string(), 20, "Cura".to_string());
    pocao.id = 2;
    assert_eq!(
        linha_listagem(&ItemTipo::Consumivel(pocao)),
        "ID: 00000000-0000-0000-0000-000000000002 \nNome: Pocao, Cura: 20, Descricao: Cura"
    );
}
