//! The knowledge base that retrieval ranks: chunks of text, ordered by a similarity score.
//!
//! The similarity of a query to a chunk is computed elsewhere; this module receives it as an
//! unsigned key whose order is the order of the similarities (a larger key is a closer chunk).
use vstd::prelude::*;
use vstd::string::*;
use crate::consts::{DEFAULT_TOP_N, EMBEDDING_MODEL, LLAMA_URL};
use crate::text::{lines, text_lines, views};

verus! {

/// Chunk `a` comes before chunk `b` in a ranking by descending key; equal keys keep the order
/// of the chunks (the earlier chunk first), as a stable sort does.
pub open spec fn precedes(keys: Seq<u64>, a: int, b: int) -> bool {
    keys[a] > keys[b] || (keys[a] == keys[b] && a < b)
}

/// `r` lists the first `n` chunks of the stable descending ranking of `keys`: `n` indices in
/// range, each ranked before the next, and every index not listed ranked after all listed ones.
pub open spec fn is_top_ranking(keys: Seq<u64>, r: Seq<usize>, n: nat) -> bool {
    &&& r.len() == n
    &&& forall|i: int| 0 <= i < r.len() ==> #[trigger] r[i] < keys.len()
    &&& forall|i: int, j: int|
        0 <= i < j < r.len() ==> #[trigger] precedes(keys, r[i] as int, r[j] as int)
    &&& forall|x: usize, i: int|
        x < keys.len() && !r.contains(x) && 0 <= i < r.len() ==> #[trigger] precedes(
            keys,
            r[i] as int,
            x as int,
        )
}

/// The number of chunks that a retrieval asked for `top_n` returns.
pub open spec fn wanted(top_n: Option<usize>) -> nat {
    match top_n {
        Some(n) => n as nat,
        None => DEFAULT_TOP_N as nat,
    }
}

/// A retrieval returns exactly the number of chunks asked for, and five when no number is given.
pub proof fn lemma_wanted(top_n: Option<usize>)
    ensures
        top_n matches Some(n) ==> wanted(top_n) == n,
        top_n is None ==> wanted(top_n) == 5,
{
}

fn precedes_exec(keys: &Vec<u64>, a: usize, b: usize) -> (res: bool)
    requires
        a < keys.len(),
        b < keys.len(),
    ensures
        res == precedes(keys@, a as int, b as int),
{
    keys[a] > keys[b] || (keys[a] == keys[b] && a < b)
}

/// The first `n` indices of the stable ranking of `keys` by descending key.
pub fn rank(keys: &Vec<u64>, n: usize) -> (r: Vec<usize>)
    requires
        n <= keys.len(),
    ensures
        is_top_ranking(keys@, r@, n as nat),
{
    let len: usize = keys.len();
    let mut rest: Vec<usize> = Vec::new();
    let mut k: usize = 0;
    while k < len
        invariant
            k <= len,
            rest@.len() == k,
            forall|j: int| 0 <= j < k ==> #[trigger] rest@[j] == j,
        decreases len - k,
    {
        rest.push(k);
        k = k + 1;
    }
    let mut r: Vec<usize> = Vec::new();
    assert forall|x: usize| x < len implies #[trigger] rest@.contains(x) by {
        assert(rest@[x as int] == x);
    }
    while r.len() < n
        invariant
            n <= len,
            len == keys.len(),
            r@.len() + rest@.len() == len,
            r@.len() <= n,
            forall|i: int| 0 <= i < r@.len() ==> #[trigger] r@[i] < len,
            forall|j: int| 0 <= j < rest@.len() ==> #[trigger] rest@[j] < len,
            forall|p: int, q: int|
                0 <= p < q < rest@.len() ==> #[trigger] rest@[p] != #[trigger] rest@[q],
            forall|i: int, j: int|
                0 <= i < j < r@.len() ==> #[trigger] precedes(keys@, r@[i] as int, r@[j] as int),
            forall|i: int, j: int|
                0 <= i < r@.len() && 0 <= j < rest@.len() ==> #[trigger] precedes(
                    keys@,
                    r@[i] as int,
                    #[trigger] rest@[j] as int,
                ),
            forall|x: usize|
                #![trigger r@.contains(x)]
                #![trigger rest@.contains(x)]
                x < len ==> r@.contains(x) || rest@.contains(x),
        decreases n - r@.len(),
    {
        let mut pos: usize = 0;
        let mut j: usize = 1;
        while j < rest.len()
            invariant
                0 < rest@.len(),
                pos < j <= rest@.len(),
                len == keys.len(),
                forall|q: int| 0 <= q < rest@.len() ==> #[trigger] rest@[q] < len,
                forall|p: int, q: int|
                    0 <= p < q < rest@.len() ==> #[trigger] rest@[p] != #[trigger] rest@[q],
                forall|q: int|
                    0 <= q < j && q != pos ==> #[trigger] precedes(
                        keys@,
                        rest@[pos as int] as int,
                        rest@[q] as int,
                    ),
            decreases rest@.len() - j,
        {
            if precedes_exec(keys, rest[j], rest[pos as usize]) {
                let ghost old_pos = pos;
                pos = j;
                assert forall|q: int| 0 <= q < j + 1 && q != pos implies #[trigger] precedes(
                    keys@,
                    rest@[pos as int] as int,
                    rest@[q] as int,
                ) by {
                    if q != old_pos {
                        assert(precedes(keys@, rest@[old_pos as int] as int, rest@[q] as int));
                    }
                }
            } else {
                assert(rest@[j as int] != rest@[pos as int]);
            }
            j = j + 1;
        }
        let ghost old_r = r@;
        let ghost old_rest = rest@;
        let best: usize = rest.remove(pos);
        r.push(best);
        assert forall|p: int, q: int|
            0 <= p < q < rest@.len() implies #[trigger] rest@[p] != #[trigger] rest@[q] by {
            let op: int = if p < pos { p } else { p + 1 };
            let oq: int = if q < pos { q } else { q + 1 };
            assert(old_rest[op] != old_rest[oq]);
        }
        assert forall|i: int, j: int|
            0 <= i < r@.len() && 0 <= j < rest@.len() implies #[trigger] precedes(
            keys@,
            r@[i] as int,
            #[trigger] rest@[j] as int,
        ) by {
            let oj: int = if j < pos { j } else { j + 1 };
            assert(rest@[j] == old_rest[oj]);
            if i < old_r.len() {
                assert(precedes(keys@, old_r[i] as int, old_rest[oj] as int));
            } else {
                assert(precedes(keys@, old_rest[pos as int] as int, old_rest[oj] as int));
            }
        }
        assert forall|i: int, j: int|
            0 <= i < j < r@.len() implies #[trigger] precedes(
            keys@,
            r@[i] as int,
            r@[j] as int,
        ) by {
            if j == old_r.len() {
                assert(precedes(keys@, old_r[i] as int, old_rest[pos as int] as int));
            }
        }
        assert forall|x: usize|
            #![trigger r@.contains(x)]
            #![trigger rest@.contains(x)]
            x < len implies r@.contains(x) || rest@.contains(x) by {
            if old_r.contains(x) {
                let i: int = choose|i: int| 0 <= i < old_r.len() && old_r[i] == x;
                assert(r@[i] == x);
            } else {
                assert(old_rest.contains(x));
                let p: int = choose|p: int| 0 <= p < old_rest.len() && old_rest[p] == x;
                if p == pos {
                    assert(r@[old_r.len() as int] == x);
                } else if p < pos {
                    assert(rest@[p] == x);
                } else {
                    assert(rest@[p - 1] == x);
                }
            }
        }
    }
    assert forall|x: usize, i: int|
        x < keys@.len() && !r@.contains(x) && 0 <= i < r@.len() implies #[trigger] precedes(
        keys@,
        r@[i] as int,
        x as int,
    ) by {
        assert(rest@.contains(x));
        let p: int = choose|p: int| 0 <= p < rest@.len() && rest@[p] == x as usize;
        assert(precedes(keys@, r@[i] as int, rest@[p] as int));
    }
    r
}

/// File whose lines make up the knowledge base.
pub const KNOWLEDGE_FILE: &'static str = "cat-facts.txt";

/// Path of the embedding endpoint on the llama server.
pub const EMBEDDINGS_PATH: &'static str = "/v1/embeddings";

/// A request for the embedding of a text.
#[derive(Debug, Clone)]
pub struct EmbeddingRequest {
    pub input: String,
    pub model: String,
}

/// The knowledge base: the chunks of text that a retrieval can return.
pub struct Embedding {
    chunks: Vec<String>,
}

impl View for Embedding {
    type V = Seq<Seq<char>>;

    closed spec fn view(&self) -> Seq<Seq<char>> {
        views(self.chunks@)
    }
}

impl Embedding {
    /// The knowledge base of a knowledge text: one chunk per line.
    pub fn new(knowledge: &str) -> (e: Embedding)
        ensures
            e@ == text_lines(knowledge@),
    {
        Embedding { chunks: lines(knowledge) }
    }

    /// Where and what to send to have `line` embedded: the embedding endpoint of the llama
    /// server, and a request for `line` under the embedding model.
    pub fn embedding_request(line: &str) -> (res: (String, EmbeddingRequest))
        ensures
            res.0@ == LLAMA_URL@ + EMBEDDINGS_PATH@,
            res.1.input@ == line@,
            res.1.model@ == EMBEDDING_MODEL@,
    {
        let mut url = LLAMA_URL.to_owned();
        url.append(EMBEDDINGS_PATH);
        (url, EmbeddingRequest { input: line.to_owned(), model: EMBEDDING_MODEL.to_owned() })
    }

    /// Number of chunks.
    pub fn len(&self) -> (n: usize)
        ensures
            n == self@.len(),
    {
        self.chunks.len()
    }

    /// The chunk at index `i`.
    pub fn chunk(&self, i: usize) -> (c: &String)
        requires
            i < self@.len(),
        ensures
            c@ == self@[i as int],
    {
        &self.chunks[i]
    }

    /// The chunks closest to a query, with their indices, closest first: `similarity[i]` is the
    /// key of the query's similarity to chunk `i`. Returns `top_n` chunks, five when `top_n` is
    /// `None`; equally similar chunks keep their order in the knowledge base.
    pub fn retrieve(&self, similarity: &Vec<u64>, top_n: Option<usize>) -> (found: Vec<
        (String, usize),
    >)
        requires
            similarity@.len() == self@.len(),
            wanted(top_n) <= similarity@.len(),
        ensures
            is_top_ranking(similarity@, found@.map_values(|p: (String, usize)| p.1), wanted(top_n)),
            forall|k: int| 0 <= k < found@.len() ==> #[trigger] found@[k].0@ == self@[found@[k].1 as int],
            top_n matches Some(n) ==> found@.len() == n,
            top_n is None ==> found@.len() == 5,
    {
        let n: usize = match top_n {
            Some(n) => n,
            None => DEFAULT_TOP_N,
        };
        let r = rank(similarity, n);
        let mut found: Vec<(String, usize)> = Vec::new();
        let mut k: usize = 0;
        while k < n
            invariant
                k <= n,
                n == r@.len(),
                is_top_ranking(similarity@, r@, n as nat),
                similarity@.len() == self.chunks@.len(),
                found@.len() == k,
                forall|q: int| 0 <= q < k ==> #[trigger] found@[q].1 == r@[q],
                forall|q: int|
                    0 <= q < k ==> #[trigger] found@[q].0@ == views(self.chunks@)[found@[q].1 as int],
            decreases n - k,
        {
            let i: usize = r[k];
            found.push((self.chunks[i].clone(), i));
            k = k + 1;
        }
        assert(found@.map_values(|p: (String, usize)| p.1) =~= r@);
        found
    }
}

/// Two lists that both give the first `n` chunks of the same ranking are equal: the ranking
/// that a retrieval returns is determined by the similarities and `n`.
pub proof fn lemma_top_ranking_unique(keys: Seq<u64>, r1: Seq<usize>, r2: Seq<usize>, n: nat)
    requires
        is_top_ranking(keys, r1, n),
        is_top_ranking(keys, r2, n),
    ensures
        r1 == r2,
{
    if n > 0 {
        lemma_rankings_agree(keys, r1, r2, n, (n - 1) as nat);
    }
    assert(r1 =~= r2);
}

proof fn lemma_rankings_agree(keys: Seq<u64>, r1: Seq<usize>, r2: Seq<usize>, n: nat, k: nat)
    requires
        is_top_ranking(keys, r1, n),
        is_top_ranking(keys, r2, n),
        k < n,
    ensures
        forall|m: int| 0 <= m <= k ==> r1[m] == r2[m],
    decreases k,
{
    if k > 0 {
        lemma_rankings_agree(keys, r1, r2, n, (k - 1) as nat);
    }
    let a: usize = r1[k as int];
    let b: usize = r2[k as int];
    if a != b {
        assert(precedes(keys, b as int, a as int)) by {
            if r2.contains(a) {
                let j: int = choose|j: int| 0 <= j < r2.len() && r2[j] == a;
                if j < k {
                    assert(r1[j] == a);
                    assert(precedes(keys, r1[j] as int, r1[k as int] as int));
                } else {
                    assert(precedes(keys, r2[k as int] as int, r2[j] as int));
                }
            } else {
                assert(precedes(keys, r2[k as int] as int, a as int));
            }
        }
        assert(precedes(keys, a as int, b as int)) by {
            if r1.contains(b) {
                let j: int = choose|j: int| 0 <= j < r1.len() && r1[j] == b;
                if j < k {
                    assert(r2[j] == b);
                    assert(precedes(keys, r2[j] as int, r2[k as int] as int));
                } else {
                    assert(precedes(keys, r1[k as int] as int, r1[j] as int));
                }
            } else {
                assert(precedes(keys, r1[k as int] as int, b as int));
            }
        }
    }
}

/// Asking for fewer chunks gives a prefix of the answer to asking for more.
pub proof fn lemma_top_ranking_prefix(keys: Seq<u64>, r: Seq<usize>, m: nat, n: nat)
    requires
        is_top_ranking(keys, r, m),
        n <= m,
    ensures
        is_top_ranking(keys, r.take(n as int), n),
{
    let t = r.take(n as int);
    assert forall|x: usize, i: int|
        x < keys.len() && !t.contains(x) && 0 <= i < t.len() implies #[trigger] precedes(
        keys,
        t[i] as int,
        x as int,
    ) by {
        if r.contains(x) {
            let j: int = choose|j: int| 0 <= j < r.len() && r[j] == x;
            if j < n {
                assert(t[j] == x);
            } else {
                assert(precedes(keys, r[i] as int, r[j] as int));
            }
        } else {
            assert(precedes(keys, r[i] as int, x as int));
        }
    }
}

/// The chunks that a retrieval returns are `n` distinct chunks of the knowledge base in
/// non-increasing order of similarity, equally similar ones in the order of the knowledge base;
/// no chunk left out is more similar than a chunk returned, and one left out that is as similar
/// comes later in the knowledge base.
pub proof fn lemma_top_ranking_scores(keys: Seq<u64>, r: Seq<usize>, n: nat)
    requires
        is_top_ranking(keys, r, n),
    ensures
        r.len() == n,
        forall|i: int| 0 <= i < n ==> #[trigger] r[i] < keys.len(),
        forall|i: int, j: int| 0 <= i < j < n ==> #[trigger] r[i] != #[trigger] r[j],
        forall|i: int, j: int|
            0 <= i < j < n ==> #[trigger] keys[r[i] as int] >= #[trigger] keys[r[j] as int],
        forall|i: int, j: int|
            0 <= i < j < n && #[trigger] keys[r[i] as int] == #[trigger] keys[r[j] as int] ==> r[i]
                < r[j],
        forall|x: usize, i: int|
            x < keys.len() && !r.contains(x) && 0 <= i < n ==> #[trigger] keys[x as int]
                <= #[trigger] keys[r[i] as int],
        forall|x: usize, i: int|
            x < keys.len() && !r.contains(x) && 0 <= i < n && #[trigger] keys[x as int]
                == #[trigger] keys[r[i] as int] ==> r[i] < x,
{
    assert forall|i: int, j: int| 0 <= i < j < n implies #[trigger] r[i] != #[trigger] r[j] by {
        assert(precedes(keys, r[i] as int, r[j] as int));
    }
    assert forall|i: int, j: int|
        0 <= i < j < n implies #[trigger] keys[r[i] as int] >= #[trigger] keys[r[j] as int] by {
        assert(precedes(keys, r[i] as int, r[j] as int));
    }
    assert forall|i: int, j: int|
        0 <= i < j < n && #[trigger] keys[r[i] as int] == #[trigger] keys[r[j] as int] implies r[i]
            < r[j] by {
        assert(precedes(keys, r[i] as int, r[j] as int));
    }
    assert forall|x: usize, i: int|
        x < keys.len() && !r.contains(x) && 0 <= i < n implies #[trigger] keys[x as int]
            <= #[trigger] keys[r[i] as int] by {
        assert(precedes(keys, r[i] as int, x as int));
    }
    assert forall|x: usize, i: int|
        x < keys.len() && !r.contains(x) && 0 <= i < n && #[trigger] keys[x as int]
            == #[trigger] keys[r[i] as int] implies r[i] < x by {
        assert(precedes(keys, r[i] as int, x as int));
    }
}

} // verus!
