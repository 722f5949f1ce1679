pub mod boxnovel;
pub mod eatapplepies;
pub mod links;
pub mod providers;
pub mod wuxiaworldco;
