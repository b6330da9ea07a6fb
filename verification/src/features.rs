pub mod direnv;
