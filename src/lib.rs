//! Cardholder Capability Container (CCC) identifier support for PIV cards.
//!
//! The CCC is a fixed-layout TLV object that a PIV card stores under a
//! well-known object id. A 14-byte card identifier (the CCCID) sits at a
//! fixed offset inside it; every other byte is fixed by convention.

mod cccid;
mod entropy;
mod error;

pub use cccid::{
    ccc_object, ccc_template, ccc_template_bytes, id_of, lemma_eq_is_byte_equality,
    lemma_set_then_get, read_id, CCCID, CCC_ID_OFFS, CCC_TMPL_LEN,
    YKPIV_CCCID_SIZE, YKPIV_OBJ_CAPABILITY,
};
pub use error::CccError;
