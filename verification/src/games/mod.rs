pub mod bank;
pub mod blackjack;
pub mod blackjack_laws;
pub mod cards;
pub mod slots;
pub mod video_poker;
