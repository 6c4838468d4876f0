//! Canonical cache keys.
//!
//! A key is the method name followed by its arguments, each segment escaped
//! so that `/` only ever separates segments. Distinct (method, arguments)
//! pairs therefore always give distinct keys.
use vstd::prelude::*;

verus! {

/// The queries whose answers the cache knows how to handle.
#[derive(Clone, Copy, Debug, PartialEq, Eq, Structural)]
pub enum Method {
    BlockByNumber,
    TransactionByHash,
    Balance,
    StorageAt,
    TransactionCount,
    GetCode,
    GetAccount,
    DebugTraceBlockByNumber,
    DebugTraceCall,
    GasPrice,
    BlockNumber,
    ChainId,
}

pub open spec fn method_name(m: Method) -> Seq<char> {
    match m {
        Method::BlockByNumber => "block_by_number"@,
        Method::TransactionByHash => "transaction_by_hash"@,
        Method::Balance => "get_balance"@,
        Method::StorageAt => "storage_at"@,
        Method::TransactionCount => "transaction_count"@,
        Method::GetCode => "get_code"@,
        Method::GetAccount => "get_account"@,
        Method::DebugTraceBlockByNumber => "debug_trace_block_by_number"@,
        Method::DebugTraceCall => "debug_trace_call"@,
        Method::GasPrice => "gas_price"@,
        Method::BlockNumber => "block_number"@,
        Method::ChainId => "chain_id"@,
    }
}

impl Method {
    /// The name under which the method's answers are keyed.
    pub fn name(&self) -> (r: &'static str)
        ensures
            r@ == method_name(*self),
    {
        match self {
            Method::BlockByNumber => "block_by_number",
            Method::TransactionByHash => "transaction_by_hash",
            Method::Balance => "get_balance",
            Method::StorageAt => "storage_at",
            Method::TransactionCount => "transaction_count",
            Method::GetCode => "get_code",
            Method::GetAccount => "get_account",
            Method::DebugTraceBlockByNumber => "debug_trace_block_by_number",
            Method::DebugTraceCall => "debug_trace_call",
            Method::GasPrice => "gas_price",
            Method::BlockNumber => "block_number",
            Method::ChainId => "chain_id",
        }
    }
}

pub open spec fn method_arity(m: Method) -> nat {
    match m {
        Method::TransactionByHash => 1,
        Method::StorageAt | Method::DebugTraceCall => 3,
        Method::GasPrice | Method::BlockNumber | Method::ChainId => 0,
        _ => 2,
    }
}

impl Method {
    /// Every method, each once.
    pub fn all() -> (r: Vec<Method>)
        ensures
            r@.len() == 12,
            forall|m: Method| #[trigger] r@.contains(m),
    {
        let r = vec![
            Method::BlockByNumber,
            Method::TransactionByHash,
            Method::Balance,
            Method::StorageAt,
            Method::TransactionCount,
            Method::GetCode,
            Method::GetAccount,
            Method::DebugTraceBlockByNumber,
            Method::DebugTraceCall,
            Method::GasPrice,
            Method::BlockNumber,
            Method::ChainId,
        ];
        proof {
            assert forall|m: Method| #[trigger] r@.contains(m) by {
                match m {
                    Method::BlockByNumber => assert(r@[0] == m),
                    Method::TransactionByHash => assert(r@[1] == m),
                    Method::Balance => assert(r@[2] == m),
                    Method::StorageAt => assert(r@[3] == m),
                    Method::TransactionCount => assert(r@[4] == m),
                    Method::GetCode => assert(r@[5] == m),
                    Method::GetAccount => assert(r@[6] == m),
                    Method::DebugTraceBlockByNumber => assert(r@[7] == m),
                    Method::DebugTraceCall => assert(r@[8] == m),
                    Method::GasPrice => assert(r@[9] == m),
                    Method::BlockNumber => assert(r@[10] == m),
                    Method::ChainId => assert(r@[11] == m),
                }
            }
        }
        r
    }

    /// How many positional parameters the method takes; trailing optional
    /// ones may be left out by callers.
    pub fn arity(&self) -> (r: usize)
        ensures
            r == method_arity(*self),
    {
        match self {
            Method::TransactionByHash => 1,
            Method::StorageAt | Method::DebugTraceCall => 3,
            Method::GasPrice | Method::BlockNumber | Method::ChainId => 0,
            _ => 2,
        }
    }

    /// Whether the method belongs to the tracing and debugging namespace.
    pub fn is_debug(&self) -> (r: bool)
        ensures
            r == (*self is DebugTraceBlockByNumber || *self is DebugTraceCall),
    {
        matches!(self, Method::DebugTraceBlockByNumber | Method::DebugTraceCall)
    }

    /// The JSON-RPC method the query answers.
    pub fn rpc_name(&self) -> (r: &'static str)
        ensures
            r@ == spec_rpc_name(*self),
    {
        match self {
            Method::BlockByNumber => "eth_getBlockByNumber",
            Method::TransactionByHash => "eth_getTransactionByHash",
            Method::Balance => "eth_getBalance",
            Method::StorageAt => "eth_getStorageAt",
            Method::TransactionCount => "eth_getTransactionCount",
            Method::GetCode => "eth_getCode",
            Method::GetAccount => "eth_getAccount",
            Method::DebugTraceBlockByNumber => "debug_traceBlockByNumber",
            Method::DebugTraceCall => "debug_traceCall",
            Method::GasPrice => "eth_gasPrice",
            Method::BlockNumber => "eth_blockNumber",
            Method::ChainId => "eth_chainId",
        }
    }
}

pub open spec fn spec_rpc_name(m: Method) -> Seq<char> {
    match m {
        Method::BlockByNumber => "eth_getBlockByNumber"@,
        Method::TransactionByHash => "eth_getTransactionByHash"@,
        Method::Balance => "eth_getBalance"@,
        Method::StorageAt => "eth_getStorageAt"@,
        Method::TransactionCount => "eth_getTransactionCount"@,
        Method::GetCode => "eth_getCode"@,
        Method::GetAccount => "eth_getAccount"@,
        Method::DebugTraceBlockByNumber => "debug_traceBlockByNumber"@,
        Method::DebugTraceCall => "debug_traceCall"@,
        Method::GasPrice => "eth_gasPrice"@,
        Method::BlockNumber => "eth_blockNumber"@,
        Method::ChainId => "eth_chainId"@,
    }
}

pub open spec fn is_special(c: char) -> bool {
    c == '/' || c == '\\'
}

/// One character as it appears inside a segment.
pub open spec fn escape_char(c: char) -> Seq<char> {
    if is_special(c) {
        seq!['\\', c]
    } else {
        seq![c]
    }
}

/// A segment with every `/` and `\` preceded by `\`.
pub open spec fn escape(s: Seq<char>) -> Seq<char>
    decreases s.len(),
{
    if s.len() == 0 {
        Seq::empty()
    } else {
        escape_char(s[0]) + escape(s.drop_first())
    }
}

/// The segments after the first, each introduced by `/`.
pub open spec fn tail_segments(t: Seq<Seq<char>>) -> Seq<char>
    decreases t.len(),
{
    if t.len() == 0 {
        Seq::empty()
    } else {
        seq!['/'] + escape(t[0]) + tail_segments(t.drop_first())
    }
}

/// A non-empty list of segments joined into one text.
pub open spec fn join_segments(l: Seq<Seq<char>>) -> Seq<char> {
    escape(l[0]) + tail_segments(l.drop_first())
}

/// The text of the key for `method` applied to `args`.
pub open spec fn key_text(method: Method, args: Seq<Seq<char>>) -> Seq<char> {
    join_segments(seq![method_name(method)] + args)
}

pub open spec fn starts_segment(r: Seq<char>) -> bool {
    r.len() == 0 || r[0] == '/'
}

proof fn lemma_escape_push(s: Seq<char>, c: char)
    ensures
        escape(s.push(c)) == escape(s) + escape_char(c),
    decreases s.len(),
{
    if s.len() == 0 {
        assert(s.push(c).drop_first() =~= Seq::<char>::empty());
        assert(escape(s.push(c)) =~= escape_char(c) + escape(Seq::<char>::empty()));
    } else {
        assert(s.push(c).drop_first() =~= s.drop_first().push(c));
        lemma_escape_push(s.drop_first(), c);
        assert(escape(s.push(c)) =~= escape(s) + escape_char(c));
    }
}

proof fn lemma_tail_push(t: Seq<Seq<char>>, x: Seq<char>)
    ensures
        tail_segments(t.push(x)) == tail_segments(t) + seq!['/'] + escape(x),
    decreases t.len(),
{
    if t.len() == 0 {
        assert(t.push(x).drop_first() =~= Seq::<Seq<char>>::empty());
        assert(t.push(x)[0] == x);
        assert(tail_segments(t.push(x).drop_first()) == Seq::<char>::empty());
        assert(tail_segments(t) == Seq::<char>::empty());
        assert(tail_segments(t.push(x)) =~= tail_segments(t) + seq!['/'] + escape(x));
    } else {
        assert(t.push(x).drop_first() =~= t.drop_first().push(x));
        assert(t.push(x)[0] == t[0]);
        lemma_tail_push(t.drop_first(), x);
        assert(tail_segments(t.push(x)) == seq!['/'] + escape(t[0]) + tail_segments(
            t.drop_first().push(x),
        ));
        assert(tail_segments(t.push(x)) =~= tail_segments(t) + seq!['/'] + escape(x));
    }
}

proof fn lemma_tail_starts_segment(t: Seq<Seq<char>>)
    ensures
        starts_segment(tail_segments(t)),
{
    if t.len() > 0 {
        assert((seq!['/'] + escape(t[0]) + tail_segments(t.drop_first()))[0] == '/');
    }
}

proof fn lemma_escape_first(s: Seq<char>)
    requires
        s.len() > 0,
    ensures
        escape(s).len() > 0,
        escape(s)[0] != '/',
        escape(s)[0] == '\\' <==> is_special(s[0]),
        is_special(s[0]) ==> escape(s).len() > 1 && escape(s)[1] == s[0],
        !is_special(s[0]) ==> escape(s)[0] == s[0],
{
}

/// Escaped segments are read back unambiguously up to the next separator.
proof fn lemma_escape_injective(s1: Seq<char>, r1: Seq<char>, s2: Seq<char>, r2: Seq<char>)
    requires
        starts_segment(r1),
        starts_segment(r2),
        escape(s1) + r1 == escape(s2) + r2,
    ensures
        s1 == s2,
        r1 == r2,
    decreases s1.len() + s2.len(),
{
    let a = escape(s1) + r1;
    if s1.len() == 0 {
        if s2.len() > 0 {
            lemma_escape_first(s2);
            assert(a =~= r1);
            assert(a[0] == escape(s2)[0]);
        }
        assert(escape(s1) =~= Seq::<char>::empty());
        assert(escape(s2) =~= Seq::<char>::empty());
        assert(r1 =~= a);
        assert(r2 =~= a);
    } else if s2.len() == 0 {
        lemma_escape_injective(s2, r2, s1, r1);
    } else {
        lemma_escape_first(s1);
        lemma_escape_first(s2);
        assert(a[0] == escape(s1)[0]);
        assert(a[0] == escape(s2)[0]);
        let n1 = escape_char(s1[0]).len();
        let n2 = escape_char(s2[0]).len();
        if is_special(s1[0]) {
            assert(a[1] == escape(s1)[1]);
            assert(a[1] == escape(s2)[1]);
        }
        assert(s1[0] == s2[0]);
        assert(n1 == n2);
        let rest1 = escape(s1.drop_first()) + r1;
        let rest2 = escape(s2.drop_first()) + r2;
        assert(a =~= escape_char(s1[0]) + rest1);
        assert(a =~= escape_char(s2[0]) + rest2);
        assert(rest1 =~= a.subrange(n1 as int, a.len() as int));
        assert(rest2 =~= a.subrange(n2 as int, a.len() as int));
        lemma_escape_injective(s1.drop_first(), r1, s2.drop_first(), r2);
        assert(s1 =~= seq![s1[0]] + s1.drop_first());
        assert(s2 =~= seq![s2[0]] + s2.drop_first());
    }
}

proof fn lemma_tail_injective(t1: Seq<Seq<char>>, t2: Seq<Seq<char>>)
    requires
        tail_segments(t1) == tail_segments(t2),
    ensures
        t1 == t2,
    decreases t1.len(),
{
    if t1.len() == 0 {
        if t2.len() > 0 {
            assert((seq!['/'] + escape(t2[0]) + tail_segments(t2.drop_first())).len() > 0);
        }
        assert(t2 =~= t1);
    } else {
        if t2.len() == 0 {
            assert((seq!['/'] + escape(t1[0]) + tail_segments(t1.drop_first())).len() > 0);
        }
        let a = tail_segments(t1);
        lemma_tail_starts_segment(t1.drop_first());
        lemma_tail_starts_segment(t2.drop_first());
        assert(a.drop_first() =~= escape(t1[0]) + tail_segments(t1.drop_first()));
        assert(a.drop_first() =~= escape(t2[0]) + tail_segments(t2.drop_first()));
        lemma_escape_injective(
            t1[0],
            tail_segments(t1.drop_first()),
            t2[0],
            tail_segments(t2.drop_first()),
        );
        lemma_tail_injective(t1.drop_first(), t2.drop_first());
        assert(t1 =~= seq![t1[0]] + t1.drop_first());
        assert(t2 =~= seq![t2[0]] + t2.drop_first());
    }
}

/// Two non-empty segment lists join to the same text only if they are equal.
pub proof fn lemma_join_injective(l1: Seq<Seq<char>>, l2: Seq<Seq<char>>)
    requires
        l1.len() > 0,
        l2.len() > 0,
        join_segments(l1) == join_segments(l2),
    ensures
        l1 == l2,
{
    lemma_tail_starts_segment(l1.drop_first());
    lemma_tail_starts_segment(l2.drop_first());
    lemma_escape_injective(
        l1[0],
        tail_segments(l1.drop_first()),
        l2[0],
        tail_segments(l2.drop_first()),
    );
    lemma_tail_injective(l1.drop_first(), l2.drop_first());
    assert(l1 =~= seq![l1[0]] + l1.drop_first());
    assert(l2 =~= seq![l2[0]] + l2.drop_first());
}

/// Reads a method back from its name: the names differ in length, or else
/// in one character.
spec fn method_of_name(s: Seq<char>) -> Method {
    if s.len() == 15 {
        Method::BlockByNumber
    } else if s.len() == 19 {
        Method::TransactionByHash
    } else if s.len() == 11 && s[4] == 'b' {
        Method::Balance
    } else if s.len() == 10 {
        Method::StorageAt
    } else if s.len() == 17 {
        Method::TransactionCount
    } else if s.len() == 8 && s[0] == 'g' {
        Method::GetCode
    } else if s.len() == 11 {
        Method::GetAccount
    } else if s.len() == 27 {
        Method::DebugTraceBlockByNumber
    } else if s.len() == 16 {
        Method::DebugTraceCall
    } else if s.len() == 9 {
        Method::GasPrice
    } else if s.len() == 12 {
        Method::BlockNumber
    } else {
        Method::ChainId
    }
}

proof fn lemma_method_of_name(m: Method)
    ensures
        method_of_name(method_name(m)) == m,
{
    reveal_strlit("block_by_number");
    reveal_strlit("transaction_by_hash");
    reveal_strlit("get_balance");
    reveal_strlit("storage_at");
    reveal_strlit("transaction_count");
    reveal_strlit("get_code");
    reveal_strlit("get_account");
    reveal_strlit("debug_trace_block_by_number");
    reveal_strlit("debug_trace_call");
    reveal_strlit("gas_price");
    reveal_strlit("block_number");
    reveal_strlit("chain_id");
}

proof fn lemma_method_name_injective(m1: Method, m2: Method)
    requires
        method_name(m1) == method_name(m2),
    ensures
        m1 == m2,
{
    lemma_method_of_name(m1);
    lemma_method_of_name(m2);
}

/// Keys are injective: equal key texts come from the same method applied
/// to the same argument texts.
pub proof fn lemma_key_injective(m1: Method, a1: Seq<Seq<char>>, m2: Method, a2: Seq<Seq<char>>)
    requires
        key_text(m1, a1) == key_text(m2, a2),
    ensures
        m1 == m2,
        a1 == a2,
{
    let l1 = seq![method_name(m1)] + a1;
    let l2 = seq![method_name(m2)] + a2;
    lemma_join_injective(l1, l2);
    assert(l1[0] == l2[0]);
    lemma_method_name_injective(m1, m2);
    assert(a1 =~= l1.drop_first());
    assert(a2 =~= l2.drop_first());
}

/// Appends `escape(s)` to `out`.
fn append_escaped(out: &mut String, s: &str)
    ensures
        final(out)@ == old(out)@ + escape(s@),
{
    let ghost start = out@;
    let n = s.unicode_len();
    let mut i: usize = 0;
    while i < n
        invariant
            n == s@.len(),
            i <= n,
            out@ == start + escape(s@.take(i as int)),
        decreases n - i,
    {
        let c = s.get_char(i);
        if c == '/' || c == '\\' {
            out.append("\\");
            proof {
                reveal_strlit("\\");
            }
        }
        out.append(s.substring_char(i, i + 1));
        proof {
            assert(s@.subrange(i as int, i + 1) =~= seq![c]);
            assert(s@.take(i + 1) =~= s@.take(i as int).push(c));
            lemma_escape_push(s@.take(i as int), c);
        }
        i = i + 1;
    }
    proof {
        assert(s@.take(n as int) =~= s@);
    }
}

/// A query's identity: its method and the canonical text of each argument.
#[derive(Clone, Debug)]
pub struct CacheKey {
    pub method: Method,
    pub args: Vec<String>,
}

impl CacheKey {
    pub open spec fn arg_texts(&self) -> Seq<Seq<char>> {
        self.args@.map_values(|a: String| a@)
    }

    /// The key's text, as [`CacheKey::text`] builds it.
    pub open spec fn spec_text(&self) -> Seq<char> {
        key_text(self.method, self.arg_texts())
    }

    pub fn new(method: Method, args: Vec<String>) -> (r: CacheKey)
        ensures
            r.method == method,
            r.args@ == args@,
    {
        CacheKey { method, args }
    }

    /// The key of a call with the given parameter texts, the trailing
    /// parameters that were left out written as JSON `null`; `None` when
    /// there are more parameters than the method takes.
    pub fn from_params(method: Method, params: Vec<String>) -> (r: Option<CacheKey>)
        ensures
            r is None <==> params@.len() > method_arity(method),
            r matches Some(k) ==> {
                &&& k.method == method
                &&& k.args@.len() == method_arity(method)
                &&& forall|i: int| 0 <= i < params@.len() ==> #[trigger] k.args@[i]@ == params@[i]@
                &&& forall|i: int|
                    params@.len() <= i < method_arity(method) ==> #[trigger] k.args@[i]@ == "null"@
            },
    {
        let arity = method.arity();
        if params.len() > arity {
            return None;
        }
        let mut args = params;
        let ghost given = args@;
        while args.len() < arity
            invariant
                given.len() <= args@.len() <= arity,
                forall|i: int| 0 <= i < given.len() ==> #[trigger] args@[i] == given[i],
                forall|i: int| given.len() <= i < args@.len() ==> #[trigger] args@[i]@ == "null"@,
            decreases arity - args.len(),
        {
            args.push("null".to_string());
        }
        Some(CacheKey { method, args })
    }

    /// Joins the method name and the arguments into one text.
    pub fn text(&self) -> (r: String)
        ensures
            r@ == self.spec_text(),
    {
        let mut out = String::new();
        append_escaped(&mut out, self.method.name());
        let ghost first = seq![method_name(self.method)];
        proof {
            assert(first.drop_first() =~= Seq::<Seq<char>>::empty());
            assert(out@ =~= join_segments(first));
        }
        let mut j: usize = 0;
        while j < self.args.len()
            invariant
                j <= self.args.len(),
                first == seq![method_name(self.method)],
                out@ == join_segments(first + self.arg_texts().take(j as int)),
            decreases self.args.len() - j,
        {
            let ghost before = out@;
            out.append("/");
            append_escaped(&mut out, self.args[j].as_str());
            proof {
                reveal_strlit("/");
                let done = self.arg_texts().take(j as int);
                let x = self.args@[j as int]@;
                assert(self.arg_texts().take(j + 1) =~= done.push(x));
                assert((first + done.push(x)).drop_first() =~= done.push(x));
                assert((first + done).drop_first() =~= done);
                lemma_tail_push(done, x);
                assert(out@ =~= join_segments(first + self.arg_texts().take(j + 1)));
            }
            j = j + 1;
        }
        proof {
            assert(self.arg_texts().take(j as int) =~= self.arg_texts());
        }
        out
    }
}

} // verus!
