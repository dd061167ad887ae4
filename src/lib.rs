//! Characters, equipment and consumables of a small role-playing game, with
//! the rules that govern equipping and using items, stated and proved.

pub mod entrada;
pub mod errors;
pub mod game;
pub mod itens;
pub mod leis;
pub mod listagem;
pub mod personagens;
pub mod texto;
pub mod traits;
