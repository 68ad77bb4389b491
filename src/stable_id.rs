use vstd::prelude::*;
use vstd::string::StringSliceAdditionalSpecFns;

verus! {

/// A type's build-stable identity: a 64-bit keyed hash over the build version, the
/// declaring path, the bare name and the identities of the generic parameters.
#[derive(PartialEq, Eq, Structural, Clone, Copy, Hash, Debug)]
pub struct StableTypeId(pub u64);

/// The SipHash-1-3 digest, with both keys zero, of a byte string.
pub uninterp spec fn sip13(data: Seq<u8>) -> u64;

/// Relies on `const_siphasher::sip::SipHasher13::new` (both keys zero) and
/// `SipHasher13::hash`, which feeds the bytes to a fresh copy of the hasher and
/// finishes it: the digest depends on the bytes alone.
#[verifier::external_body]
fn siphash13(data: &[u8]) -> (r: u64)
    ensures
        r == sip13(data@),
{
    const_siphasher::sip::SipHasher13::new().hash(data)
}

/// The first `n` little-endian base-256 digits of `x`.
pub open spec fn le_digits(x: nat, n: nat) -> Seq<u8>
    decreases n,
{
    if n == 0 {
        seq![]
    } else {
        seq![(x % 256) as u8] + le_digits(x / 256, (n - 1) as nat)
    }
}

/// The eight bytes of `x` in little-endian order.
pub open spec fn le_bytes(x: u64) -> Seq<u8> {
    le_digits(x as nat, 8)
}

/// The identities of the parameters, in order, each as eight little-endian bytes.
pub open spec fn params_bytes(params: Seq<StableTypeId>) -> Seq<u8>
    decreases params.len(),
{
    if params.len() == 0 {
        seq![]
    } else {
        params_bytes(params.drop_last()) + le_bytes(params.last().0)
    }
}

/// The bytes hashed for a type: version, path and name as written, then the
/// parameters' identities.
pub open spec fn message_of(
    version: Seq<u8>,
    path: Seq<u8>,
    name: Seq<u8>,
    params: Seq<StableTypeId>,
) -> Seq<u8> {
    version + path + name + params_bytes(params)
}

/// The stable identity of the type so described.
pub open spec fn stable_id_of(
    version: Seq<u8>,
    path: Seq<u8>,
    name: Seq<u8>,
    params: Seq<StableTypeId>,
) -> StableTypeId {
    StableTypeId(sip13(message_of(version, path, name, params)))
}

fn push_bytes(out: &mut Vec<u8>, bytes: &[u8])
    ensures
        final(out)@ == old(out)@ + bytes@,
{
    let mut i: usize = 0;
    while i < bytes.len()
        invariant
            i <= bytes@.len(),
            out@ == old(out)@ + bytes@.subrange(0, i as int),
        decreases bytes@.len() - i,
    {
        out.push(bytes[i]);
        i = i + 1;
        assert(bytes@.subrange(0, i as int) == bytes@.subrange(0, i - 1) + seq![bytes@[i - 1]]);
    }
    assert(bytes@.subrange(0, bytes@.len() as int) == bytes@);
}

fn push_le_bytes(out: &mut Vec<u8>, x: u64)
    ensures
        final(out)@ == old(out)@ + le_bytes(x),
{
    let mut rest: u64 = x;
    let mut k: usize = 0;
    while k < 8
        invariant
            k <= 8,
            out@ + le_digits(rest as nat, (8 - k) as nat) == old(out)@ + le_bytes(x),
        decreases 8 - k,
    {
        let ghost before = out@;
        out.push((rest % 256) as u8);
        assert(le_digits(rest as nat, (8 - k) as nat) == seq![(rest % 256) as u8] + le_digits(
            (rest / 256) as nat,
            (8 - k - 1) as nat,
        ));
        assert(before + le_digits(rest as nat, (8 - k) as nat) == out@ + le_digits(
            (rest / 256) as nat,
            (8 - k - 1) as nat,
        ));
        rest = rest / 256;
        k = k + 1;
    }
    assert(le_digits(rest as nat, 0) == Seq::<u8>::empty());
    assert(out@ + Seq::<u8>::empty() == out@);
}

/// The decimal digits of `n`, most significant first.
pub open spec fn decimal_digits(n: nat) -> Seq<char>
    decreases n,
{
    let digit = seq!['0', '1', '2', '3', '4', '5', '6', '7', '8', '9'][(n % 10) as int];
    if n < 10 {
        seq![digit]
    } else {
        decimal_digits(n / 10).push(digit)
    }
}

/// Relies on `ToString::to_string` through `u64`'s `Display`: the number in
/// decimal, most significant digit first, with no sign, padding or separator.
#[verifier::external_body]
fn decimal_text(x: u64) -> (r: String)
    ensures
        r@ == decimal_digits(x as nat),
{
    x.to_string()
}

/// Builds the bytes that are hashed for a type with the given version, declaring
/// path, bare name and parameter identities.
pub fn identity_message(version: &str, path: &str, name: &str, params: &[StableTypeId]) -> (r:
    Vec<u8>)
    ensures
        r@ == message_of(version.spec_bytes(), path.spec_bytes(), name.spec_bytes(), params@),
{
    let mut out: Vec<u8> = Vec::new();
    push_bytes(&mut out, version.as_bytes());
    push_bytes(&mut out, path.as_bytes());
    push_bytes(&mut out, name.as_bytes());
    let ghost head = out@;
    let mut i: usize = 0;
    while i < params.len()
        invariant
            i <= params@.len(),
            head == version.spec_bytes() + path.spec_bytes() + name.spec_bytes(),
            out@ == head + params_bytes(params@.subrange(0, i as int)),
        decreases params@.len() - i,
    {
        push_le_bytes(&mut out, params[i].0);
        i = i + 1;
        let ghost s = params@.subrange(0, i as int);
        assert(s.drop_last() == params@.subrange(0, i - 1));
        assert(head + params_bytes(s) == head + params_bytes(s.drop_last()) + le_bytes(s.last().0));
    }
    assert(params@.subrange(0, params@.len() as int) == params@);
    out
}

/// A type with a registered build-stable identity.
pub trait UUID {
    /// The identity the type is registered with.
    spec fn spec_uuid() -> StableTypeId;

    /// Computes the identity the type is registered with.
    fn uuid() -> (r: StableTypeId)
        ensures
            r == Self::spec_uuid(),
    ;
}

impl StableTypeId {
    /// Wraps a raw 64-bit identity.
    pub fn new(val: u64) -> (r: StableTypeId)
        ensures
            r.0 == val,
    {
        StableTypeId(val)
    }

    /// The identity as decimal text, as it is usually printed.
    pub fn to_decimal_string(&self) -> (r: String)
        ensures
            r@ == decimal_digits(self.0 as nat),
    {
        decimal_text(self.0)
    }

    /// The raw 64-bit identity.
    pub fn to_u64(self) -> (r: u64)
        ensures
            r == self.0,
    {
        self.0
    }

    /// Computes the identity of the type with the given version, declaring path,
    /// bare name and parameter identities.
    pub fn compute(version: &str, path: &str, name: &str, params: &[StableTypeId]) -> (r:
        StableTypeId)
        ensures
            r == stable_id_of(version.spec_bytes(), path.spec_bytes(), name.spec_bytes(), params@),
    {
        let msg = identity_message(version, path, name, params);
        StableTypeId(siphash13(msg.as_slice()))
    }
}

/// `256` to the power `n`.
pub open spec fn pow256(n: nat) -> nat
    decreases n,
{
    if n == 0 {
        1
    } else {
        256 * pow256((n - 1) as nat)
    }
}

proof fn lemma_le_digits_len(x: nat, n: nat)
    ensures
        le_digits(x, n).len() == n,
    decreases n,
{
    if n > 0 {
        lemma_le_digits_len(x / 256, (n - 1) as nat);
    }
}

proof fn lemma_le_digits_injective(x: nat, y: nat, n: nat)
    requires
        le_digits(x, n) == le_digits(y, n),
        x < pow256(n),
        y < pow256(n),
    ensures
        x == y,
    decreases n,
{
    if n > 0 {
        let m = (n - 1) as nat;
        let dx = le_digits(x, n);
        let dy = le_digits(y, n);
        lemma_le_digits_len(x / 256, m);
        lemma_le_digits_len(y / 256, m);
        assert(dx[0] == (x % 256) as u8);
        assert(dy[0] == (y % 256) as u8);
        assert(x % 256 == y % 256);
        assert(dx.subrange(1, dx.len() as int) == le_digits(x / 256, m));
        assert(dy.subrange(1, dy.len() as int) == le_digits(y / 256, m));
        let p = pow256(m);
        assert(x / 256 < p) by (nonlinear_arith)
            requires
                x < 256 * p,
        ;
        assert(y / 256 < p) by (nonlinear_arith)
            requires
                y < 256 * p,
        ;
        lemma_le_digits_injective(x / 256, y / 256, m);
        assert(x == 256 * (x / 256) + x % 256) by (nonlinear_arith);
        assert(y == 256 * (y / 256) + y % 256) by (nonlinear_arith);
    }
}

proof fn lemma_le_bytes_injective(x: u64, y: u64)
    requires
        le_bytes(x) == le_bytes(y),
    ensures
        x == y,
{
    reveal_with_fuel(pow256, 9);
    assert(pow256(8) == 0x1_0000_0000_0000_0000);
    lemma_le_digits_injective(x as nat, y as nat, 8);
}

proof fn lemma_params_bytes_layout(params: Seq<StableTypeId>)
    ensures
        params_bytes(params).len() == 8 * params.len(),
        forall|i: int|
            0 <= i < params.len() ==> #[trigger] params_bytes(params).subrange(8 * i, 8 * i + 8)
                == le_bytes(params[i].0),
    decreases params.len(),
{
    if params.len() > 0 {
        let init = params.drop_last();
        lemma_params_bytes_layout(init);
        lemma_le_digits_len(params.last().0 as nat, 8);
        let whole = params_bytes(params);
        assert(whole == params_bytes(init) + le_bytes(params.last().0));
        assert forall|i: int| 0 <= i < params.len() implies #[trigger] whole.subrange(
            8 * i,
            8 * i + 8,
        ) == le_bytes(params[i].0) by {
            if i < init.len() {
                assert(whole.subrange(8 * i, 8 * i + 8) == params_bytes(init).subrange(
                    8 * i,
                    8 * i + 8,
                ));
                assert(init[i] == params[i]);
            } else {
                assert(whole.subrange(8 * i, 8 * i + 8) == le_bytes(params.last().0));
            }
        }
    }
}

/// Two builds that describe a type alike (same version, path, name and parameter
/// identities) compute the same stable identity for it: nothing else enters the
/// hash, neither a per-process seed nor an address.
pub proof fn lemma_stable_id_deterministic(
    version: Seq<u8>,
    path: Seq<u8>,
    name: Seq<u8>,
    params: Seq<StableTypeId>,
    version2: Seq<u8>,
    path2: Seq<u8>,
    name2: Seq<u8>,
    params2: Seq<StableTypeId>,
)
    requires
        version == version2,
        path == path2,
        name == name2,
        params == params2,
    ensures
        stable_id_of(version, path, name, params) == stable_id_of(version2, path2, name2, params2),
{
}

/// Instances of one generic type whose parameters have different identities (such
/// as `Foo<u8>` and `Foo<u16>`) are hashed over different bytes. That their 64-bit
/// digests differ as well rests on the hash, which is not proved here.
pub proof fn lemma_params_separate_messages(
    version: Seq<u8>,
    path: Seq<u8>,
    name: Seq<u8>,
    params: Seq<StableTypeId>,
    params2: Seq<StableTypeId>,
)
    requires
        params != params2,
    ensures
        message_of(version, path, name, params) != message_of(version, path, name, params2),
{
    let head = version + path + name;
    let m1 = message_of(version, path, name, params);
    let m2 = message_of(version, path, name, params2);
    lemma_params_bytes_layout(params);
    lemma_params_bytes_layout(params2);
    if m1 == m2 {
        assert(m1.len() == head.len() + 8 * params.len());
        assert(m2.len() == head.len() + 8 * params2.len());
        assert(params.len() == params2.len());
        assert(params_bytes(params) == m1.subrange(head.len() as int, m1.len() as int));
        assert(params_bytes(params2) == m2.subrange(head.len() as int, m2.len() as int));
        let i = choose|i: int| 0 <= i < params.len() && params[i] != params2[i];
        if !(0 <= i < params.len() && params[i] != params2[i]) {
            assert(params =~= params2);
        }
        assert(params_bytes(params).subrange(8 * i, 8 * i + 8) == le_bytes(params[i].0));
        assert(params_bytes(params2).subrange(8 * i, 8 * i + 8) == le_bytes(params2[i].0));
        lemma_le_bytes_injective(params[i].0, params2[i].0);
    }
}

} // verus!
