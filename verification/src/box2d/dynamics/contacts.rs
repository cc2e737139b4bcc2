pub mod contact;
