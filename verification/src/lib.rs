pub mod channels;
pub mod fault;
pub mod flood_generics;
pub mod fragment_generics;
pub mod harness;
pub mod laws;
pub mod model;
pub mod network;
pub mod packet;
pub mod relay;
pub mod sc_generics;
pub mod wiring;
