use crate::entropy::fill_random;
use crate::error::CccError;
use vstd::prelude::*;
use vstd::std_specs::cmp::PartialEqSpec;

verus! {

/// Size in bytes of a card identifier.
pub const YKPIV_CCCID_SIZE: usize = 14;

/// Offset of the card identifier within the capability container.
pub const CCC_ID_OFFS: usize = 9;

/// Total length in bytes of a capability container.
pub const CCC_TMPL_LEN: usize = 51;

/// Object id under which a card stores its capability container.
pub const YKPIV_OBJ_CAPABILITY: u32 = 0x5fc107;

/// The canonical capability container, with the identifier slot zeroed.
///
/// `f0 15`: card identifier record; `a0 00 00 01 16`: GSC-IS RID;
/// `ff`: manufacturer id (dummy); `02`: card type (javaCard); then the
/// 14 identifier bytes, then the fixed capability and version fields.
pub open spec fn ccc_template() -> Seq<u8> {
    seq![
        0xf0u8, 0x15u8, 0xa0u8, 0x00u8, 0x00u8, 0x01u8, 0x16u8, 0xffu8, 0x02u8,
        0x00u8, 0x00u8, 0x00u8, 0x00u8, 0x00u8, 0x00u8, 0x00u8,
        0x00u8, 0x00u8, 0x00u8, 0x00u8, 0x00u8, 0x00u8, 0x00u8,
        0xf1u8, 0x01u8, 0x21u8, 0xf2u8, 0x01u8, 0x21u8, 0xf3u8, 0x00u8, 0xf4u8,
        0x01u8, 0x00u8, 0xf5u8, 0x01u8, 0x10u8, 0xf6u8, 0x00u8, 0xf7u8, 0x00u8,
        0xfau8, 0x00u8, 0xfbu8, 0x00u8, 0xfcu8, 0x00u8, 0xfdu8, 0x00u8, 0xfeu8, 0x00u8,
    ]
}

/// The capability container that carries the identifier `id`: the template
/// with its identifier slot replaced by `id`.
pub open spec fn ccc_object(id: Seq<u8>) -> Seq<u8> {
    ccc_template().subrange(0, CCC_ID_OFFS as int) + id + ccc_template().subrange(
        (CCC_ID_OFFS + YKPIV_CCCID_SIZE) as int,
        CCC_TMPL_LEN as int,
    )
}

/// The identifier slot of a capability container.
pub open spec fn id_of(obj: Seq<u8>) -> Seq<u8> {
    obj.subrange(CCC_ID_OFFS as int, (CCC_ID_OFFS + YKPIV_CCCID_SIZE) as int)
}

/// What a read of the capability container `obj` yields: its identifier
/// slot, or `GenericError` where `obj` is not exactly as long as the template.
pub open spec fn read_id(obj: Seq<u8>) -> Result<Seq<u8>, CccError> {
    if obj.len() != CCC_TMPL_LEN {
        Err(CccError::GenericError)
    } else {
        Ok(id_of(obj))
    }
}

/// A fresh copy of the canonical capability container.
pub fn ccc_template_bytes() -> (r: Vec<u8>)
    ensures
        r@ == ccc_template(),
{
    let r = vec![
        0xf0u8, 0x15, 0xa0, 0x00, 0x00, 0x01, 0x16, 0xff, 0x02, 0x00, 0x00, 0x00, 0x00, 0x00,
        0x00, 0x00, 0x00, 0x00, 0x00, 0x00, 0x00, 0x00, 0x00, 0xf1, 0x01, 0x21, 0xf2, 0x01,
        0x21, 0xf3, 0x00, 0xf4, 0x01, 0x00, 0xf5, 0x01, 0x10, 0xf6, 0x00, 0xf7, 0x00, 0xfa,
        0x00, 0xfb, 0x00, 0xfc, 0x00, 0xfd, 0x00, 0xfe, 0x00,
    ];
    assert(r@ =~= ccc_template());
    r
}

/// Cardholder Capability Container (CCC) identifier.
#[derive(Copy, Clone, Debug)]
pub struct CCCID(pub [u8; 14]);

impl CCCID {
    /// The outcome of drawing an identifier: the identifier that wraps the
    /// drawn bytes, or `RandomnessError` where the random source supplied
    /// none. No fallback value is made up in place of missing entropy.
    pub fn from_drawn(drawn: Option<[u8; 14]>) -> (r: Result<CCCID, CccError>)
        ensures
            drawn is Some ==> r == Ok::<CCCID, CccError>(CCCID(drawn->Some_0)),
            drawn is None ==> r == Err::<CCCID, CccError>(CccError::RandomnessError),
    {
        match drawn {
            Some(bytes) => Ok(CCCID(bytes)),
            None => Err(CccError::RandomnessError),
        }
    }

    /// Generates a random identifier from the system's secure random source.
    ///
    /// The identifier wraps the bytes the source supplied (see `from_drawn`);
    /// where no entropy can be had it fails with `RandomnessError`.
    pub fn generate() -> (r: Result<CCCID, CccError>)
        ensures
            r is Err ==> r == Err::<CCCID, CccError>(CccError::RandomnessError),
    {
        let mut id = [0u8; 14];
        let drawn = match fill_random(&mut id) {
            Ok(()) => Some(id),
            Err(_) => None,
        };
        CCCID::from_drawn(drawn)
    }

    /// Extracts the identifier from `fetched`, the outcome of fetching the
    /// capability container object (`YKPIV_OBJ_CAPABILITY`) from a card.
    ///
    /// A device error is handed back unchanged. An object whose length is
    /// not exactly the template's gives `GenericError`, with nothing
    /// extracted from it.
    pub fn get(fetched: Result<Vec<u8>, CccError>) -> (r: Result<CCCID, CccError>)
        ensures
            fetched is Err ==> r == Err::<CCCID, CccError>(fetched->Err_0),
            fetched is Ok ==> match read_id(fetched->Ok_0@) {
                Ok(id) => r is Ok && r->Ok_0.0@ == id,
                Err(e) => r == Err::<CCCID, CccError>(e),
            },
    {
        let response = match fetched {
            Ok(v) => v,
            Err(e) => {
                return Err(e);
            },
        };
        if response.len() != CCC_TMPL_LEN {
            return Err(CccError::GenericError);
        }
        let mut id = [0u8; 14];
        let mut i: usize = 0;
        while i < YKPIV_CCCID_SIZE
            invariant
                i <= YKPIV_CCCID_SIZE,
                response@.len() == CCC_TMPL_LEN,
                forall|j: int| 0 <= j < i ==> id@[j] == response@[CCC_ID_OFFS + j],
            decreases YKPIV_CCCID_SIZE - i,
        {
            id[i] = response[CCC_ID_OFFS + i];
            i = i + 1;
        }
        assert(id@ =~= id_of(response@));
        Ok(CCCID(id))
    }

    /// The capability container that stores this identifier: a copy of the
    /// template with the identifier slot, and only it, overwritten. Saving
    /// it under `YKPIV_OBJ_CAPABILITY` replaces the card's whole object.
    pub fn set(&self) -> (r: Vec<u8>)
        ensures
            r@ == ccc_object(self.0@),
            r@.len() == CCC_TMPL_LEN,
            id_of(r@) == self.0@,
            forall|i: int|
                0 <= i < CCC_TMPL_LEN && !(CCC_ID_OFFS <= i < CCC_ID_OFFS + YKPIV_CCCID_SIZE)
                    ==> r@[i] == #[trigger] ccc_template()[i],
    {
        let mut buf = ccc_template_bytes();
        let mut i: usize = 0;
        while i < YKPIV_CCCID_SIZE
            invariant
                i <= YKPIV_CCCID_SIZE,
                buf@.len() == CCC_TMPL_LEN,
                forall|j: int| 0 <= j < i ==> buf@[CCC_ID_OFFS + j] == self.0@[j],
                forall|j: int|
                    0 <= j < CCC_TMPL_LEN && !(CCC_ID_OFFS + i <= j < CCC_ID_OFFS + YKPIV_CCCID_SIZE)
                        && !(CCC_ID_OFFS <= j < CCC_ID_OFFS + i) ==> buf@[j] == ccc_template()[j],
            decreases YKPIV_CCCID_SIZE - i,
        {
            buf.set(CCC_ID_OFFS + i, self.0[i]);
            i = i + 1;
        }
        assert(buf@ =~= ccc_object(self.0@));
        assert(id_of(buf@) =~= self.0@);
        buf
    }
}

impl PartialEq for CCCID {
    /// Two identifiers are equal when their bytes are.
    fn eq(&self, other: &CCCID) -> (r: bool) {
        let mut i: usize = 0;
        while i < YKPIV_CCCID_SIZE
            invariant
                i <= YKPIV_CCCID_SIZE,
                self.0@.subrange(0, i as int) == other.0@.subrange(0, i as int),
            decreases YKPIV_CCCID_SIZE - i,
        {
            if self.0[i] != other.0[i] {
                return false;
            }
            assert(self.0@.subrange(0, i + 1) =~= self.0@.subrange(0, i as int).push(self.0[i as int]));
            assert(other.0@.subrange(0, i + 1) =~= other.0@.subrange(0, i as int).push(other.0[i as int]));
            i = i + 1;
        }
        assert(self.0@ =~= self.0@.subrange(0, 14));
        assert(other.0@ =~= other.0@.subrange(0, 14));
        true
    }
}

impl vstd::std_specs::cmp::PartialEqSpecImpl for CCCID {
    open spec fn obeys_eq_spec() -> bool {
        true
    }

    open spec fn eq_spec(&self, other: &CCCID) -> bool {
        self.0@ == other.0@
    }
}

impl Eq for CCCID {
}

/// Round trip: the object that `set` builds for an identifier has the
/// template's length, so `get` on it succeeds and yields that identifier.
pub proof fn lemma_set_then_get(x: CCCID)
    ensures
        read_id(ccc_object(x.0@)) == Ok::<Seq<u8>, CccError>(x.0@),
{
    assert(id_of(ccc_object(x.0@)) =~= x.0@);
}

/// Two identifiers are equal exactly when their bytes are, and that
/// equality is reflexive, symmetric and transitive.
pub proof fn lemma_eq_is_byte_equality(a: CCCID, b: CCCID, c: CCCID)
    ensures
        a.eq_spec(&b) <==> a.0@ == b.0@,
        a.eq_spec(&a),
        a.eq_spec(&b) ==> b.eq_spec(&a),
        a.eq_spec(&b) && b.eq_spec(&c) ==> a.eq_spec(&c),
{
}

} // verus!
