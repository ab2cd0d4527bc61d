pub mod beats;
