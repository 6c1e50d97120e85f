//! The command builder: a pure mapping from the schema path, the endpoint
//! address and the option bag to the ordered argument vector handed to the
//! MCP server binary.
//!
//! `args_spec` is the mathematical statement of the whole command line;
//! `build_args` is proved to return exactly it. The token-counting lemmas at
//! the end state the flag laws: a boolean flag appears exactly once when set
//! and never otherwise, and the two uplink options collapse to one token.

use vstd::prelude::*;
use vstd::string::StringExecFns;

use crate::options::McpServerOpts;

verus! {

/// The decimal digit character for `n` (`n < 10`).
pub open spec fn dec_digit(n: nat) -> char
    recommends
        n < 10,
{
    if n == 0 {
        '0'
    } else if n == 1 {
        '1'
    } else if n == 2 {
        '2'
    } else if n == 3 {
        '3'
    } else if n == 4 {
        '4'
    } else if n == 5 {
        '5'
    } else if n == 6 {
        '6'
    } else if n == 7 {
        '7'
    } else if n == 8 {
        '8'
    } else {
        '9'
    }
}

/// The decimal rendering of `n`, most significant digit first, with no
/// leading zeros (except for `n == 0` itself).
pub open spec fn dec_spec(n: nat) -> Seq<char>
    decreases n,
{
    if n < 10 {
        seq![dec_digit(n)]
    } else {
        dec_spec(n / 10) + seq![dec_digit(n % 10)]
    }
}

fn dec_digit_str(d: u16) -> (s: &'static str)
    requires
        d < 10,
    ensures
        s@ == seq![dec_digit(d as nat)],
{
    proof {
        reveal_strlit("0");
        reveal_strlit("1");
        reveal_strlit("2");
        reveal_strlit("3");
        reveal_strlit("4");
        reveal_strlit("5");
        reveal_strlit("6");
        reveal_strlit("7");
        reveal_strlit("8");
        reveal_strlit("9");
        assert("0"@ =~= seq!['0']);
        assert("1"@ =~= seq!['1']);
        assert("2"@ =~= seq!['2']);
        assert("3"@ =~= seq!['3']);
        assert("4"@ =~= seq!['4']);
        assert("5"@ =~= seq!['5']);
        assert("6"@ =~= seq!['6']);
        assert("7"@ =~= seq!['7']);
        assert("8"@ =~= seq!['8']);
        assert("9"@ =~= seq!['9']);
    }
    match d {
        0 => "0",
        1 => "1",
        2 => "2",
        3 => "3",
        4 => "4",
        5 => "5",
        6 => "6",
        7 => "7",
        8 => "8",
        _ => "9",
    }
}

/// Renders `n` in decimal, exactly as `dec_spec` states.
pub fn dec_string(n: u16) -> (s: String)
    ensures
        s@ == dec_spec(n as nat),
    decreases n,
{
    if n < 10 {
        let s = dec_digit_str(n);
        s.to_owned()
    } else {
        let prefix = dec_string(n / 10);
        prefix.concat(dec_digit_str(n % 10))
    }
}

/// The tokens an optional scalar option contributes: its flag and value when
/// present, nothing when absent.
pub open spec fn opt_pair(flag: Seq<char>, v: Option<String>) -> Seq<Seq<char>> {
    match v {
        Some(s) => seq![flag, s@],
        None => seq![],
    }
}

/// The tokens a boolean option contributes: its bare flag when set, nothing
/// otherwise.
pub open spec fn bool_flag(flag: Seq<char>, on: bool) -> Seq<Seq<char>> {
    if on {
        seq![flag]
    } else {
        seq![]
    }
}

/// The tokens the header list contributes: one `--header <value>` pair per
/// element, in list order.
pub open spec fn headers_seg(hs: Seq<Seq<char>>) -> Seq<Seq<char>>
    decreases hs.len(),
{
    if hs.len() == 0 {
        seq![]
    } else {
        seq!["--header"@, hs[0]] + headers_seg(hs.drop_first())
    }
}

/// The tokens the operations list contributes: a single `--operations` flag
/// followed by every path, in list order; nothing when the list is empty.
pub open spec fn operations_seg(ops: Seq<Seq<char>>) -> Seq<Seq<char>> {
    if ops.len() == 0 {
        seq![]
    } else {
        seq!["--operations"@] + ops
    }
}

/// The full argument list for one launch: the four mandatory flag/value
/// pairs first, then each optional field's contribution in fixed order.
/// `uplink` and `uplink_manifest` collapse to one `--uplink-manifest` token.
pub open spec fn args_spec(schema_path: Seq<char>, endpoint: Seq<char>, o: McpServerOpts) -> Seq<
    Seq<char>,
> {
    seq!["--schema"@, schema_path] + seq!["--endpoint"@, endpoint] + seq![
        "--http-port"@,
        dec_spec(o.port as nat),
    ] + seq!["--http-address"@, o.address@] + opt_pair("--directory"@, o.directory) + opt_pair(
        "--collection"@,
        o.collection,
    ) + seq!["--allow-mutations"@, o.allow_mutations.value_name_spec()] + bool_flag(
        "--introspection"@,
        o.introspection,
    ) + operations_seg(o.operations.deep_view()) + headers_seg(o.headers.deep_view()) + opt_pair(
        "--manifest"@,
        o.manifest,
    ) + bool_flag("--uplink-manifest"@, o.uplink_manifest || o.uplink) + opt_pair(
        "--custom-scalars-config"@,
        o.custom_scalars_config,
    ) + bool_flag("--disable-type-description"@, o.disable_type_description) + bool_flag(
        "--disable-schema-description"@,
        o.disable_schema_description,
    ) + bool_flag("--explorer"@, o.explorer)
}

fn push_pair(args: &mut Vec<String>, flag: &'static str, value: String)
    ensures
        final(args).deep_view() == old(args).deep_view() + seq![flag@, value@],
{
    let ghost value_view = value@;
    args.push(flag.to_owned());
    args.push(value);
    proof {
        assert(args.deep_view() =~= old(args).deep_view() + seq![flag@, value_view]);
    }
}

fn push_opt_pair(args: &mut Vec<String>, flag: &'static str, value: &Option<String>)
    ensures
        final(args).deep_view() == old(args).deep_view() + opt_pair(flag@, *value),
{
    match value {
        Some(s) => {
            push_pair(args, flag, s.clone());
        },
        None => {
            proof {
                assert(args.deep_view() =~= args.deep_view() + opt_pair(flag@, *value));
            }
        },
    }
}

fn push_bool_flag(args: &mut Vec<String>, flag: &'static str, on: bool)
    ensures
        final(args).deep_view() == old(args).deep_view() + bool_flag(flag@, on),
{
    if on {
        args.push(flag.to_owned());
        proof {
            assert(args.deep_view() =~= old(args).deep_view() + bool_flag(flag@, on));
        }
    } else {
        proof {
            assert(args.deep_view() =~= args.deep_view() + bool_flag(flag@, on));
        }
    }
}

proof fn lemma_headers_seg_push(hs: Seq<Seq<char>>, x: Seq<char>)
    ensures
        headers_seg(hs.push(x)) == headers_seg(hs) + seq!["--header"@, x],
    decreases hs.len(),
{
    if hs.len() == 0 {
        assert(hs.push(x).drop_first() =~= Seq::<Seq<char>>::empty());
        assert(hs.push(x)[0] == x);
        assert(headers_seg(Seq::<Seq<char>>::empty()) =~= Seq::<Seq<char>>::empty());
        assert(headers_seg(hs.push(x)) == seq!["--header"@, x] + headers_seg(
            Seq::<Seq<char>>::empty(),
        ));
        assert(headers_seg(hs.push(x)) =~= headers_seg(hs) + seq!["--header"@, x]);
    } else {
        assert(hs.push(x).drop_first() =~= hs.drop_first().push(x));
        lemma_headers_seg_push(hs.drop_first(), x);
        assert(hs.push(x)[0] == hs[0]);
        assert(headers_seg(hs.push(x)) == seq!["--header"@, hs[0]] + headers_seg(
            hs.drop_first().push(x),
        ));
        assert(seq!["--header"@, hs[0]] + (headers_seg(hs.drop_first()) + seq!["--header"@, x])
            =~= (seq!["--header"@, hs[0]] + headers_seg(hs.drop_first())) + seq!["--header"@, x]);
        assert(headers_seg(hs.push(x)) =~= headers_seg(hs) + seq!["--header"@, x]);
    }
}

#[verifier::loop_isolation(false)]
fn push_headers(args: &mut Vec<String>, headers: &Vec<String>)
    ensures
        final(args).deep_view() == old(args).deep_view() + headers_seg(headers.deep_view()),
{
    let ghost base = args.deep_view();
    let ghost hs = headers.deep_view();
    let mut i: usize = 0;
    proof {
        assert(args.deep_view() =~= base + headers_seg(hs.take(0)));
    }
    while i < headers.len()
        invariant
            i <= headers.len(),
            args.deep_view() == base + headers_seg(hs.take(i as int)),
        decreases headers.len() - i,
    {
        let h = headers[i].clone();
        proof {
            assert(h@ == hs[i as int]);
        }
        push_pair(args, "--header", h);
        proof {
            lemma_headers_seg_push(hs.take(i as int), hs[i as int]);
            assert(hs.take(i + 1 as int) =~= hs.take(i as int).push(hs[i as int]));
            assert(args.deep_view() =~= base + headers_seg(hs.take(i + 1 as int)));
        }
        i += 1;
    }
    proof {
        assert(hs.take(headers.len() as int) =~= hs);
    }
}

#[verifier::loop_isolation(false)]
fn push_operations(args: &mut Vec<String>, ops: &Vec<String>)
    ensures
        final(args).deep_view() == old(args).deep_view() + operations_seg(ops.deep_view()),
{
    let ghost base = args.deep_view();
    let ghost os = ops.deep_view();
    if ops.len() == 0 {
        proof {
            assert(args.deep_view() =~= base + operations_seg(os));
        }
        return ;
    }
    args.push("--operations".to_owned());
    let mut i: usize = 0;
    proof {
        assert(args.deep_view() =~= base + seq!["--operations"@] + os.take(0));
    }
    while i < ops.len()
        invariant
            i <= ops.len(),
            args.deep_view() == base + seq!["--operations"@] + os.take(i as int),
        decreases ops.len() - i,
    {
        let p = ops[i].clone();
        proof {
            assert(p@ == os[i as int]);
        }
        let ghost pre = args.deep_view();
        args.push(p);
        proof {
            assert(args.deep_view() =~= pre.push(os[i as int]));
            assert(os.take(i + 1 as int) =~= os.take(i as int).push(os[i as int]));
            assert(pre.push(os[i as int]) =~= base + seq!["--operations"@] + os.take(i + 1 as int));
        }
        i += 1;
    }
    proof {
        assert(os.take(ops.len() as int) =~= os);
        assert(base + seq!["--operations"@] + os =~= base + (seq!["--operations"@] + os));
    }
}

/// Builds the argument list for one launch of the MCP server binary. Pure
/// and deterministic: the result is exactly `args_spec` of the inputs.
pub fn build_args(schema_path: &String, endpoint: &String, o: &McpServerOpts) -> (args: Vec<
    String,
>)
    ensures
        args.deep_view() == args_spec(schema_path@, endpoint@, *o),
{
    let mut args: Vec<String> = Vec::new();
    push_pair(&mut args, "--schema", schema_path.clone());
    push_pair(&mut args, "--endpoint", endpoint.clone());
    push_pair(&mut args, "--http-port", dec_string(o.port));
    push_pair(&mut args, "--http-address", o.address.clone());
    push_opt_pair(&mut args, "--directory", &o.directory);
    push_opt_pair(&mut args, "--collection", &o.collection);
    push_pair(&mut args, "--allow-mutations", o.allow_mutations.value_name().to_owned());
    push_bool_flag(&mut args, "--introspection", o.introspection);
    push_operations(&mut args, &o.operations);
    push_headers(&mut args, &o.headers);
    push_opt_pair(&mut args, "--manifest", &o.manifest);
    push_bool_flag(&mut args, "--uplink-manifest", o.uplink_manifest || o.uplink);
    push_opt_pair(&mut args, "--custom-scalars-config", &o.custom_scalars_config);
    push_bool_flag(&mut args, "--disable-type-description", o.disable_type_description);
    push_bool_flag(&mut args, "--disable-schema-description", o.disable_schema_description);
    push_bool_flag(&mut args, "--explorer", o.explorer);
    proof {
        assert(args.deep_view() =~= args_spec(schema_path@, endpoint@, *o));
    }
    args
}

/// How many tokens of `args` equal `tok`.
pub open spec fn count_token(args: Seq<Seq<char>>, tok: Seq<char>) -> nat
    decreases args.len(),
{
    if args.len() == 0 {
        0
    } else {
        (if args[0] == tok {
            1nat
        } else {
            0nat
        }) + count_token(args.drop_first(), tok)
    }
}

proof fn lemma_count_token_add(a: Seq<Seq<char>>, b: Seq<Seq<char>>, tok: Seq<char>)
    ensures
        count_token(a + b, tok) == count_token(a, tok) + count_token(b, tok),
    decreases a.len(),
{
    if a.len() == 0 {
        assert(a + b =~= b);
    } else {
        assert((a + b).drop_first() =~= a.drop_first() + b);
        assert((a + b)[0] == a[0]);
        lemma_count_token_add(a.drop_first(), b, tok);
    }
}

proof fn lemma_count1(x: Seq<char>, tok: Seq<char>)
    ensures
        count_token(seq![x], tok) == (if x == tok {
            1nat
        } else {
            0nat
        }),
{
    assert(seq![x].drop_first() =~= Seq::<Seq<char>>::empty());
    assert(count_token(Seq::<Seq<char>>::empty(), tok) == 0);
}

proof fn lemma_count2(x: Seq<char>, y: Seq<char>, tok: Seq<char>)
    ensures
        count_token(seq![x, y], tok) == (if x == tok {
            1nat
        } else {
            0nat
        }) + (if y == tok {
            1nat
        } else {
            0nat
        }),
{
    assert(seq![x, y].drop_first() =~= seq![y]);
    lemma_count1(y, tok);
}

proof fn lemma_count_elems_zero(s: Seq<Seq<char>>, tok: Seq<char>)
    requires
        forall|i: int| 0 <= i < s.len() ==> s[i] != tok,
    ensures
        count_token(s, tok) == 0,
    decreases s.len(),
{
    if s.len() > 0 {
        assert(forall|i: int| 0 <= i < s.drop_first().len() ==> s.drop_first()[i] == s[i + 1]);
        lemma_count_elems_zero(s.drop_first(), tok);
    }
}

proof fn lemma_count_headers(hs: Seq<Seq<char>>, tok: Seq<char>)
    requires
        forall|i: int| 0 <= i < hs.len() ==> hs[i] != tok,
    ensures
        count_token(headers_seg(hs), tok) == (if tok == "--header"@ {
            hs.len()
        } else {
            0nat
        }),
    decreases hs.len(),
{
    if hs.len() > 0 {
        lemma_count_token_add(seq!["--header"@, hs[0]], headers_seg(hs.drop_first()), tok);
        lemma_count2("--header"@, hs[0], tok);
        assert(forall|i: int| 0 <= i < hs.drop_first().len() ==> hs.drop_first()[i] == hs[i + 1]);
        lemma_count_headers(hs.drop_first(), tok);
    }
}

proof fn lemma_count_operations(ops: Seq<Seq<char>>, tok: Seq<char>)
    requires
        forall|i: int| 0 <= i < ops.len() ==> ops[i] != tok,
    ensures
        count_token(operations_seg(ops), tok) == (if ops.len() > 0 && tok == "--operations"@ {
            1nat
        } else {
            0nat
        }),
{
    if ops.len() > 0 {
        lemma_count_token_add(seq!["--operations"@], ops, tok);
        lemma_count1("--operations"@, tok);
        lemma_count_elems_zero(ops, tok);
    }
}

proof fn lemma_count_opt_pair(flag: Seq<char>, v: Option<String>, tok: Seq<char>)
    requires
        v matches Some(s) ==> s@ != tok,
    ensures
        count_token(opt_pair(flag, v), tok) == (if v is Some && flag == tok {
            1nat
        } else {
            0nat
        }),
{
    match v {
        Some(s) => {
            lemma_count2(flag, s@, tok);
        },
        None => {
            assert(count_token(opt_pair(flag, v), tok) == 0);
        },
    }
}

proof fn lemma_count_bool_flag(flag: Seq<char>, on: bool, tok: Seq<char>)
    ensures
        count_token(bool_flag(flag, on), tok) == (if on && flag == tok {
            1nat
        } else {
            0nat
        }),
{
    if on {
        lemma_count1(flag, tok);
    } else {
        assert(count_token(bool_flag(flag, on), tok) == 0);
    }
}

proof fn lemma_dec_spec_no_dash(n: nat)
    ensures
        dec_spec(n).len() > 0,
        dec_spec(n)[0] != '-',
    decreases n,
{
    if n >= 10 {
        lemma_dec_spec_no_dash(n / 10);
        assert(dec_spec(n)[0] == dec_spec(n / 10)[0]);
    }
}

proof fn lemma_mutation_value_no_dash(m: crate::options::MutationMode)
    ensures
        m.value_name_spec().len() > 0,
        m.value_name_spec()[0] != '-',
{
    reveal_strlit("none");
    reveal_strlit("explicit");
    reveal_strlit("all");
}

/// No opaque string input of the command builder spells the token `tok`
/// itself. The flag-counting laws hold under this proviso: an input such as
/// a header string equal to `--explorer` would add a literal occurrence of
/// that token, which the builder passes through unvalidated by design.
pub open spec fn opaque_strings_avoid(
    schema: Seq<char>,
    endpoint: Seq<char>,
    o: McpServerOpts,
    tok: Seq<char>,
) -> bool {
    &&& schema != tok
    &&& endpoint != tok
    &&& o.address@ != tok
    &&& (o.directory matches Some(d) ==> d@ != tok)
    &&& (o.collection matches Some(c) ==> c@ != tok)
    &&& (forall|i: int|
        0 <= i < o.operations.deep_view().len() ==> o.operations.deep_view()[i] != tok)
    &&& (forall|i: int| 0 <= i < o.headers.deep_view().len() ==> o.headers.deep_view()[i] != tok)
    &&& (o.manifest matches Some(m) ==> m@ != tok)
    &&& (o.custom_scalars_config matches Some(c) ==> c@ != tok)
}

/// How often a token that starts with a dash and is spelled by no opaque
/// string input occurs in the built argument list: once per flag position
/// that emits it, and `--header` once per header.
#[verifier::rlimit(100)]
pub proof fn lemma_token_count(
    schema: Seq<char>,
    endpoint: Seq<char>,
    o: McpServerOpts,
    tok: Seq<char>,
)
    requires
        opaque_strings_avoid(schema, endpoint, o, tok),
        tok.len() > 0,
        tok[0] == '-',
    ensures
        count_token(args_spec(schema, endpoint, o), tok) == (if tok == "--schema"@ {
            1nat
        } else {
            0nat
        }) + (if tok == "--endpoint"@ {
            1nat
        } else {
            0nat
        }) + (if tok == "--http-port"@ {
            1nat
        } else {
            0nat
        }) + (if tok == "--http-address"@ {
            1nat
        } else {
            0nat
        }) + (if o.directory is Some && tok == "--directory"@ {
            1nat
        } else {
            0nat
        }) + (if o.collection is Some && tok == "--collection"@ {
            1nat
        } else {
            0nat
        }) + (if tok == "--allow-mutations"@ {
            1nat
        } else {
            0nat
        }) + (if o.introspection && tok == "--introspection"@ {
            1nat
        } else {
            0nat
        }) + (if o.operations.deep_view().len() > 0 && tok == "--operations"@ {
            1nat
        } else {
            0nat
        }) + (if tok == "--header"@ {
            o.headers.deep_view().len()
        } else {
            0nat
        }) + (if o.manifest is Some && tok == "--manifest"@ {
            1nat
        } else {
            0nat
        }) + (if (o.uplink_manifest || o.uplink) && tok == "--uplink-manifest"@ {
            1nat
        } else {
            0nat
        }) + (if o.custom_scalars_config is Some && tok == "--custom-scalars-config"@ {
            1nat
        } else {
            0nat
        }) + (if o.disable_type_description && tok == "--disable-type-description"@ {
            1nat
        } else {
            0nat
        }) + (if o.disable_schema_description && tok == "--disable-schema-description"@ {
            1nat
        } else {
            0nat
        }) + (if o.explorer && tok == "--explorer"@ {
            1nat
        } else {
            0nat
        }),
{
    let s1 = seq!["--schema"@, schema];
    let s2 = seq!["--endpoint"@, endpoint];
    let s3 = seq!["--http-port"@, dec_spec(o.port as nat)];
    let s4 = seq!["--http-address"@, o.address@];
    let s5 = opt_pair("--directory"@, o.directory);
    let s6 = opt_pair("--collection"@, o.collection);
    let s7 = seq!["--allow-mutations"@, o.allow_mutations.value_name_spec()];
    let s8 = bool_flag("--introspection"@, o.introspection);
    let s9 = operations_seg(o.operations.deep_view());
    let s10 = headers_seg(o.headers.deep_view());
    let s11 = opt_pair("--manifest"@, o.manifest);
    let s12 = bool_flag("--uplink-manifest"@, o.uplink_manifest || o.uplink);
    let s13 = opt_pair("--custom-scalars-config"@, o.custom_scalars_config);
    let s14 = bool_flag("--disable-type-description"@, o.disable_type_description);
    let s15 = bool_flag("--disable-schema-description"@, o.disable_schema_description);
    let s16 = bool_flag("--explorer"@, o.explorer);
    lemma_dec_spec_no_dash(o.port as nat);
    assert(dec_spec(o.port as nat) != tok);
    lemma_mutation_value_no_dash(o.allow_mutations);
    assert(o.allow_mutations.value_name_spec() != tok);
    lemma_count2("--schema"@, schema, tok);
    lemma_count2("--endpoint"@, endpoint, tok);
    lemma_count2("--http-port"@, dec_spec(o.port as nat), tok);
    lemma_count2("--http-address"@, o.address@, tok);
    lemma_count_opt_pair("--directory"@, o.directory, tok);
    lemma_count_opt_pair("--collection"@, o.collection, tok);
    lemma_count2("--allow-mutations"@, o.allow_mutations.value_name_spec(), tok);
    lemma_count_bool_flag("--introspection"@, o.introspection, tok);
    lemma_count_operations(o.operations.deep_view(), tok);
    lemma_count_headers(o.headers.deep_view(), tok);
    lemma_count_opt_pair("--manifest"@, o.manifest, tok);
    lemma_count_bool_flag("--uplink-manifest"@, o.uplink_manifest || o.uplink, tok);
    lemma_count_opt_pair("--custom-scalars-config"@, o.custom_scalars_config, tok);
    lemma_count_bool_flag("--disable-type-description"@, o.disable_type_description, tok);
    lemma_count_bool_flag("--disable-schema-description"@, o.disable_schema_description, tok);
    lemma_count_bool_flag("--explorer"@, o.explorer, tok);
    lemma_count_token_add(s1, s2, tok);
    lemma_count_token_add(s1 + s2, s3, tok);
    lemma_count_token_add(s1 + s2 + s3, s4, tok);
    lemma_count_token_add(s1 + s2 + s3 + s4, s5, tok);
    lemma_count_token_add(s1 + s2 + s3 + s4 + s5, s6, tok);
    lemma_count_token_add(s1 + s2 + s3 + s4 + s5 + s6, s7, tok);
    lemma_count_token_add(s1 + s2 + s3 + s4 + s5 + s6 + s7, s8, tok);
    lemma_count_token_add(s1 + s2 + s3 + s4 + s5 + s6 + s7 + s8, s9, tok);
    lemma_count_token_add(s1 + s2 + s3 + s4 + s5 + s6 + s7 + s8 + s9, s10, tok);
    lemma_count_token_add(s1 + s2 + s3 + s4 + s5 + s6 + s7 + s8 + s9 + s10, s11, tok);
    lemma_count_token_add(s1 + s2 + s3 + s4 + s5 + s6 + s7 + s8 + s9 + s10 + s11, s12, tok);
    lemma_count_token_add(s1 + s2 + s3 + s4 + s5 + s6 + s7 + s8 + s9 + s10 + s11 + s12, s13, tok);
    lemma_count_token_add(
        s1 + s2 + s3 + s4 + s5 + s6 + s7 + s8 + s9 + s10 + s11 + s12 + s13,
        s14,
        tok,
    );
    lemma_count_token_add(
        s1 + s2 + s3 + s4 + s5 + s6 + s7 + s8 + s9 + s10 + s11 + s12 + s13 + s14,
        s15,
        tok,
    );
    lemma_count_token_add(
        s1 + s2 + s3 + s4 + s5 + s6 + s7 + s8 + s9 + s10 + s11 + s12 + s13 + s14 + s15,
        s16,
        tok,
    );
}

proof fn lemma_flag_literal_facts()
    ensures
        "--schema"@.len() == 8,
        "--endpoint"@.len() == 10,
        "--http-port"@.len() == 11,
        "--http-address"@.len() == 14,
        "--directory"@.len() == 11,
        "--collection"@.len() == 12,
        "--allow-mutations"@.len() == 17,
        "--introspection"@.len() == 15,
        "--operations"@.len() == 12,
        "--header"@.len() == 8,
        "--manifest"@.len() == 10,
        "--uplink-manifest"@.len() == 17,
        "--custom-scalars-config"@.len() == 23,
        "--disable-type-description"@.len() == 26,
        "--disable-schema-description"@.len() == 28,
        "--explorer"@.len() == 10,
        "--schema"@[0] == '-' && "--schema"@[2] == 's',
        "--endpoint"@[0] == '-' && "--endpoint"@[2] == 'e' && "--endpoint"@[3] == 'n',
        "--http-port"@[0] == '-' && "--http-port"@[2] == 'h',
        "--http-address"@[0] == '-' && "--http-address"@[2] == 'h',
        "--directory"@[0] == '-' && "--directory"@[2] == 'd',
        "--collection"@[0] == '-' && "--collection"@[2] == 'c',
        "--allow-mutations"@[0] == '-' && "--allow-mutations"@[2] == 'a',
        "--introspection"@[0] == '-' && "--introspection"@[2] == 'i',
        "--operations"@[0] == '-' && "--operations"@[2] == 'o',
        "--header"@[0] == '-' && "--header"@[2] == 'h',
        "--manifest"@[0] == '-' && "--manifest"@[2] == 'm',
        "--uplink-manifest"@[0] == '-' && "--uplink-manifest"@[2] == 'u',
        "--custom-scalars-config"@[0] == '-' && "--custom-scalars-config"@[2] == 'c',
        "--disable-type-description"@[0] == '-' && "--disable-type-description"@[2] == 'd',
        "--disable-schema-description"@[0] == '-' && "--disable-schema-description"@[2] == 'd',
        "--explorer"@[0] == '-' && "--explorer"@[2] == 'e' && "--explorer"@[3] == 'x',
{
    reveal_strlit("--schema");
    reveal_strlit("--endpoint");
    reveal_strlit("--http-port");
    reveal_strlit("--http-address");
    reveal_strlit("--directory");
    reveal_strlit("--collection");
    reveal_strlit("--allow-mutations");
    reveal_strlit("--introspection");
    reveal_strlit("--operations");
    reveal_strlit("--header");
    reveal_strlit("--manifest");
    reveal_strlit("--uplink-manifest");
    reveal_strlit("--custom-scalars-config");
    reveal_strlit("--disable-type-description");
    reveal_strlit("--disable-schema-description");
    reveal_strlit("--explorer");
}

/// Law: the bare `--introspection` token appears exactly once when the
/// option is set and never otherwise.
pub proof fn lemma_introspection_token_count(schema: Seq<char>, endpoint: Seq<char>, o: McpServerOpts)
    requires
        opaque_strings_avoid(schema, endpoint, o, "--introspection"@),
    ensures
        count_token(args_spec(schema, endpoint, o), "--introspection"@) == (if o.introspection {
            1nat
        } else {
            0nat
        }),
{
    lemma_flag_literal_facts();
    assert("--introspection"@[0] == '-');
    assert("--introspection"@ != "--schema"@);
    assert("--introspection"@ != "--endpoint"@);
    assert("--introspection"@ != "--http-port"@);
    assert("--introspection"@ != "--http-address"@);
    assert("--introspection"@ != "--directory"@);
    assert("--introspection"@ != "--collection"@);
    assert("--introspection"@ != "--allow-mutations"@);
    assert("--introspection"@ != "--operations"@);
    assert("--introspection"@ != "--header"@);
    assert("--introspection"@ != "--manifest"@);
    assert("--introspection"@ != "--uplink-manifest"@);
    assert("--introspection"@ != "--custom-scalars-config"@);
    assert("--introspection"@ != "--disable-type-description"@);
    assert("--introspection"@ != "--disable-schema-description"@);
    assert("--introspection"@ != "--explorer"@);
    lemma_token_count(schema, endpoint, o, "--introspection"@);
}

/// Law: the bare `--disable-type-description` token appears exactly once
/// when the option is set and never otherwise.
pub proof fn lemma_disable_type_description_token_count(
    schema: Seq<char>,
    endpoint: Seq<char>,
    o: McpServerOpts,
)
    requires
        opaque_strings_avoid(schema, endpoint, o, "--disable-type-description"@),
    ensures
        count_token(args_spec(schema, endpoint, o), "--disable-type-description"@) == (
        if o.disable_type_description {
            1nat
        } else {
            0nat
        }),
{
    lemma_flag_literal_facts();
    assert("--disable-type-description"@[0] == '-');
    assert("--disable-type-description"@ != "--schema"@);
    assert("--disable-type-description"@ != "--endpoint"@);
    assert("--disable-type-description"@ != "--http-port"@);
    assert("--disable-type-description"@ != "--http-address"@);
    assert("--disable-type-description"@ != "--directory"@);
    assert("--disable-type-description"@ != "--collection"@);
    assert("--disable-type-description"@ != "--allow-mutations"@);
    assert("--disable-type-description"@ != "--introspection"@);
    assert("--disable-type-description"@ != "--operations"@);
    assert("--disable-type-description"@ != "--header"@);
    assert("--disable-type-description"@ != "--manifest"@);
    assert("--disable-type-description"@ != "--uplink-manifest"@);
    assert("--disable-type-description"@ != "--custom-scalars-config"@);
    assert("--disable-type-description"@ != "--disable-schema-description"@);
    assert("--disable-type-description"@ != "--explorer"@);
    lemma_token_count(schema, endpoint, o, "--disable-type-description"@);
}

/// Law: the bare `--disable-schema-description` token appears exactly once
/// when the option is set and never otherwise.
pub proof fn lemma_disable_schema_description_token_count(
    schema: Seq<char>,
    endpoint: Seq<char>,
    o: McpServerOpts,
)
    requires
        opaque_strings_avoid(schema, endpoint, o, "--disable-schema-description"@),
    ensures
        count_token(args_spec(schema, endpoint, o), "--disable-schema-description"@) == (
        if o.disable_schema_description {
            1nat
        } else {
            0nat
        }),
{
    lemma_flag_literal_facts();
    assert("--disable-schema-description"@[0] == '-');
    assert("--disable-schema-description"@ != "--schema"@);
    assert("--disable-schema-description"@ != "--endpoint"@);
    assert("--disable-schema-description"@ != "--http-port"@);
    assert("--disable-schema-description"@ != "--http-address"@);
    assert("--disable-schema-description"@ != "--directory"@);
    assert("--disable-schema-description"@ != "--collection"@);
    assert("--disable-schema-description"@ != "--allow-mutations"@);
    assert("--disable-schema-description"@ != "--introspection"@);
    assert("--disable-schema-description"@ != "--operations"@);
    assert("--disable-schema-description"@ != "--header"@);
    assert("--disable-schema-description"@ != "--manifest"@);
    assert("--disable-schema-description"@ != "--uplink-manifest"@);
    assert("--disable-schema-description"@ != "--custom-scalars-config"@);
    assert("--disable-schema-description"@ != "--disable-type-description"@);
    assert("--disable-schema-description"@ != "--explorer"@);
    lemma_token_count(schema, endpoint, o, "--disable-schema-description"@);
}

/// Law: the bare `--explorer` token appears exactly once when the option is
/// set and never otherwise.
pub proof fn lemma_explorer_token_count(schema: Seq<char>, endpoint: Seq<char>, o: McpServerOpts)
    requires
        opaque_strings_avoid(schema, endpoint, o, "--explorer"@),
    ensures
        count_token(args_spec(schema, endpoint, o), "--explorer"@) == (if o.explorer {
            1nat
        } else {
            0nat
        }),
{
    lemma_flag_literal_facts();
    assert("--explorer"@[0] == '-');
    assert("--explorer"@ != "--schema"@);
    assert("--explorer"@ != "--endpoint"@);
    assert("--explorer"@ != "--http-port"@);
    assert("--explorer"@ != "--http-address"@);
    assert("--explorer"@ != "--directory"@);
    assert("--explorer"@ != "--collection"@);
    assert("--explorer"@ != "--allow-mutations"@);
    assert("--explorer"@ != "--introspection"@);
    assert("--explorer"@ != "--operations"@);
    assert("--explorer"@ != "--header"@);
    assert("--explorer"@ != "--manifest"@);
    assert("--explorer"@ != "--uplink-manifest"@);
    assert("--explorer"@ != "--custom-scalars-config"@);
    assert("--explorer"@ != "--disable-type-description"@);
    assert("--explorer"@ != "--disable-schema-description"@);
    lemma_token_count(schema, endpoint, o, "--explorer"@);
}

/// Law: `uplink` and `uplink_manifest` — both set, or either alone — each
/// yield exactly one `--uplink-manifest` token, and never two; with neither
/// set the token does not occur.
pub proof fn lemma_uplink_manifest_token_count(
    schema: Seq<char>,
    endpoint: Seq<char>,
    o: McpServerOpts,
)
    requires
        opaque_strings_avoid(schema, endpoint, o, "--uplink-manifest"@),
    ensures
        count_token(args_spec(schema, endpoint, o), "--uplink-manifest"@) == (
        if o.uplink || o.uplink_manifest {
            1nat
        } else {
            0nat
        }),
{
    lemma_flag_literal_facts();
    assert("--uplink-manifest"@[0] == '-');
    assert("--uplink-manifest"@ != "--schema"@);
    assert("--uplink-manifest"@ != "--endpoint"@);
    assert("--uplink-manifest"@ != "--http-port"@);
    assert("--uplink-manifest"@ != "--http-address"@);
    assert("--uplink-manifest"@ != "--directory"@);
    assert("--uplink-manifest"@ != "--collection"@);
    assert("--uplink-manifest"@ != "--allow-mutations"@);
    assert("--uplink-manifest"@ != "--introspection"@);
    assert("--uplink-manifest"@ != "--operations"@);
    assert("--uplink-manifest"@ != "--header"@);
    assert("--uplink-manifest"@ != "--manifest"@);
    assert("--uplink-manifest"@ != "--custom-scalars-config"@);
    assert("--uplink-manifest"@ != "--disable-type-description"@);
    assert("--uplink-manifest"@ != "--disable-schema-description"@);
    assert("--uplink-manifest"@ != "--explorer"@);
    lemma_token_count(schema, endpoint, o, "--uplink-manifest"@);
}

/// Law: the command builder is deterministic — argument lists stated for
/// equal inputs are identical.
pub proof fn lemma_build_args_deterministic(
    a1: Seq<Seq<char>>,
    a2: Seq<Seq<char>>,
    schema: Seq<char>,
    endpoint: Seq<char>,
    o: McpServerOpts,
)
    requires
        a1 == args_spec(schema, endpoint, o),
        a2 == args_spec(schema, endpoint, o),
    ensures
        a1 == a2,
{
}

} // verus!

