pub mod frame;
pub mod ring;
pub mod rx_queue;
pub mod socket;
pub mod tx_queue;
pub mod umem;
pub mod laws;
