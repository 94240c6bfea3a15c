use vstd::prelude::*;

verus! {

/// The smallest byte of ASCII content.
pub const ASCII_BASE: u8 = 21;

/// How many byte values ASCII content draws from: `126 - 21`.
pub const ASCII_SPAN: u8 = 105;

/// The average length of a lorem ipsum word, trailing space or punctuation
/// included, in millionths of a byte: 6.793286.
pub const AVERAGE_WORD_LENGTH_MILLIONTHS: u128 = 6793286;

/// The bytes of `lipsum::lipsum(n)`: `n` words of lorem ipsum text.
pub uninterp spec fn lipsum_bytes(n: nat) -> Seq<u8>;

/// How many words to ask for while `remaining` bytes are missing: the
/// missing length over the average word length, rounded up.
pub open spec fn words_for(remaining: nat) -> nat {
    ((remaining * 1000000 + 6793285) / 6793286) as nat
}

/// Lorem ipsum text gathered batch by batch, from `acc` on, until it holds at
/// least `target` bytes (or a batch comes back empty).
pub open spec fn lorem_fill(target: nat, acc: Seq<u8>) -> Seq<u8>
    decreases (if acc.len() < target {
        target - acc.len()
    } else {
        0
    }),
{
    if acc.len() >= target {
        acc
    } else {
        let batch = lipsum_bytes(words_for((target - acc.len()) as nat));
        if batch.len() == 0 {
            acc
        } else {
            lorem_fill(target, acc + batch)
        }
    }
}

/// `n` zero bytes.
pub fn zero_content(n: usize) -> (r: Vec<u8>)
    ensures
        r@.len() == n,
        forall|i: int| 0 <= i < n ==> r@[i] == 0,
{
    let mut v: Vec<u8> = Vec::new();
    while v.len() < n
        invariant
            v@.len() <= n,
            forall|i: int| 0 <= i < v@.len() ==> v@[i] == 0,
        decreases n - v@.len(),
    {
        v.push(0);
    }
    v
}

/// ASCII content: each offset, drawn below `ASCII_SPAN`, shifted up by
/// `ASCII_BASE`. The range deliberately includes the control codes 21 to 31.
pub fn ascii_content(offsets: &Vec<u8>) -> (r: Vec<u8>)
    requires
        forall|i: int| 0 <= i < offsets@.len() ==> #[trigger] offsets@[i] < ASCII_SPAN,
    ensures
        r@.len() == offsets@.len(),
        forall|i: int| 0 <= i < r@.len() ==> #[trigger] r@[i] == ASCII_BASE + offsets@[i],
        forall|i: int| 0 <= i < r@.len() ==> 21 <= #[trigger] r@[i] <= 125,
{
    let mut v: Vec<u8> = Vec::new();
    let mut i: usize = 0;
    while i < offsets.len()
        invariant
            i <= offsets@.len(),
            v@.len() == i,
            forall|j: int| 0 <= j < offsets@.len() ==> #[trigger] offsets@[j] < ASCII_SPAN,
            forall|j: int| 0 <= j < i ==> #[trigger] v@[j] == ASCII_BASE + offsets@[j],
        decreases offsets@.len() - i,
    {
        v.push(ASCII_BASE + offsets[i]);
        i = i + 1;
    }
    v
}

/// The number of words to ask for when `current` of `target` bytes are there.
pub fn lorem_batch_words(target: usize, current: usize) -> (r: usize)
    requires
        current < target,
    ensures
        r == words_for((target - current) as nat),
        1 <= r <= target - current,
{
    let remaining = (target - current) as u128;
    let w = (remaining * 1000000 + (AVERAGE_WORD_LENGTH_MILLIONTHS - 1))
        / AVERAGE_WORD_LENGTH_MILLIONTHS;
    proof {
        let m = remaining as int;
        assert(1 <= (m * 1000000 + 6793285) / 6793286 <= m) by (nonlinear_arith)
            requires
                m >= 1,
        ;
    }
    w as usize
}

/// Relies on `lipsum::lipsum`: its text depends on `n` alone (a fixed corpus
/// and a fixed seed), and for `n > 0` it holds at least one word.
#[verifier::external_body]
fn lipsum_words(n: usize) -> (r: Vec<u8>)
    ensures
        r@ == lipsum_bytes(n as nat),
        n > 0 ==> r@.len() > 0,
{
    lipsum::lipsum(n).into_bytes()
}

/// `n` bytes of lorem ipsum text: batches are gathered until there are at
/// least `n` bytes, and the overshoot is cut off.
pub fn lorem_content(n: usize) -> (r: Vec<u8>)
    ensures
        lorem_fill(n as nat, Seq::empty()).len() >= n,
        r@ == lorem_fill(n as nat, Seq::empty()).take(n as int),
        r@.len() == n,
{
    let mut acc: Vec<u8> = Vec::new();
    while acc.len() < n
        invariant
            lorem_fill(n as nat, acc@) == lorem_fill(n as nat, Seq::empty()),
        decreases (if acc@.len() < n {
            n - acc@.len()
        } else {
            0
        }),
    {
        let words = lorem_batch_words(n, acc.len());
        let mut batch = lipsum_words(words);
        let ghost before = acc@;
        acc.append(&mut batch);
        proof {
            assert(acc@ == before + lipsum_bytes(words_for((n - before.len()) as nat)));
        }
    }
    let r = truncated(acc, n);
    r
}

/// The first `n` bytes of `data`.
pub fn truncated(data: Vec<u8>, n: usize) -> (r: Vec<u8>)
    requires
        data@.len() >= n,
    ensures
        r@ == data@.take(n as int),
{
    let mut v = data;
    v.truncate(n);
    proof {
        assert(v@ =~= data@.take(n as int));
    }
    v
}

} // verus!
