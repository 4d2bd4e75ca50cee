pub mod close_game;
pub mod create_game;
pub mod distribute_pot;
pub mod emergency_refund;
pub mod join_game;
pub mod start_game;
