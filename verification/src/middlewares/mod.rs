pub mod authentication_layer;
