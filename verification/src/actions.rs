//! The editing operations: each one validates its arguments once and then
//! applies a verified per-record transformation.

pub mod clear;
pub mod exp;
pub mod imp;
pub mod conv_en;
pub mod mod_num;
pub mod mod_text_const;
pub mod ren;
pub mod set_const;
pub mod set_name;
pub mod set_seq;
pub mod view;




