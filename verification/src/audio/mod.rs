pub mod soundchannel;
pub mod sound;
