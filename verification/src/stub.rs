//! The launcher stub: a POSIX-shell script that is prefixed onto the
//! compressed payload to form the final artifact.  On the end-user
//! machine the script checks its extraction cache, unpacks the trailing
//! `PAYLOAD_SIZE` bytes of its own file on a cache miss, and replaces
//! itself with the cached runtime.
//!
//! The exact text matters: the embedded cache identifier and payload
//! byte count drive extraction on every future run of the artifact, so
//! `generate` is specified down to the character.

use vstd::prelude::*;

use crate::num::dec_digits;

verus! {

/// The views of a sequence of owned strings.
pub open spec fn arg_views(args: Seq<String>) -> Seq<Seq<char>> {
    args.map_values(|a: String| a@)
}

/// Each extra runtime argument, prefixed by a single space: empty input
/// yields the empty sequence, so the stub's `exec` line is unchanged
/// when no arguments were configured.
pub open spec fn joined_args(args: Seq<Seq<char>>) -> Seq<char>
    decreases args.len(),
{
    if args.len() == 0 {
        Seq::empty()
    } else {
        seq![' '] + args[0] + joined_args(args.drop_first())
    }
}

/// The full text of the launcher stub for the given cache identifier,
/// payload byte count, and extra runtime arguments.
pub open spec fn stub_text(hash: Seq<char>, size: u64, args: Seq<Seq<char>>) -> Seq<char> {
    "#!/bin/sh\n"@ + "set -e\n"@ + "CACHE_ID=\""@ + hash + "\""@
        + "\nCACHE_DIR=\"${HOME}/.jbundle/cache/${CACHE_ID}\"\n"@ + "PAYLOAD_SIZE="@
        + dec_digits(size as int) + "\n"@
        + "\ncat >&2 <<'BANNER'\n   _ _                    _ _\n  (_) |__  _   _ _ __   __| | | ___\n  | | '_ \\| | | | '_ \\ / _` | |/ _ \\\n  | | |_) | |_| | | | | (_| | |  __/\n _/ |_.__/ \\__,_|_| |_|\\__,_|_|\\___|\n|__/\nBANNER\n\nif [ ! -d \"$CACHE_DIR/runtime\" ]; then\n    mkdir -p \"$CACHE_DIR\"\n    echo \"Extracting runtime (first run)...\" >&2\n    tail -c \"$PAYLOAD_SIZE\" \"$0\" | tar xzf - -C \"$CACHE_DIR\"\nfi\n\n"@
        + "exec \"$CACHE_DIR/runtime/bin/java\""@ + joined_args(args) + " -jar"@
        + " \"$CACHE_DIR/app.jar\" \"$@\"\nexit 0\n"@ + "# --- PAYLOAD BELOW ---\n"@
}

/// Appending one more argument appends one more space-prefixed piece.
proof fn lemma_joined_push(args: Seq<Seq<char>>, x: Seq<char>)
    ensures
        joined_args(args.push(x)) == joined_args(args) + (seq![' '] + x),
    decreases args.len(),
{
    if args.len() == 0 {
        assert(args.push(x).len() == 1);
        assert(args.push(x)[0] == x);
        assert(args.push(x).drop_first() =~= Seq::<Seq<char>>::empty());
        assert(joined_args(args.push(x)) == seq![' '] + x + joined_args(
            args.push(x).drop_first(),
        ));
        assert(joined_args(args.push(x)) =~= joined_args(args) + (seq![' '] + x));
    } else {
        lemma_joined_push(args.drop_first(), x);
        assert(args.push(x).drop_first() =~= args.drop_first().push(x));
        assert(args.push(x)[0] == args[0]);
        assert(joined_args(args.push(x)) == seq![' '] + args[0] + joined_args(
            args.drop_first().push(x),
        ));
        assert(joined_args(args.push(x)) =~= joined_args(args) + (seq![' '] + x));
    }
}

/// Joins the extra runtime arguments for the stub's `exec` line: one
/// leading space before each argument, nothing for an empty list.
pub fn join_args(args: &[String]) -> (s: String)
    ensures
        s@ == joined_args(arg_views(args@)),
{
    let mut s = String::new();
    let mut i: usize = 0;
    while i < args.len()
        invariant
            i <= args.len(),
            s@ == joined_args(arg_views(args@.take(i as int))),
        decreases args.len() - i,
    {
        s.append(" ");
        s.append(args[i].as_str());
        proof {
            reveal_strlit(" ");
            assert(" "@ =~= seq![' ']);
            lemma_joined_push(arg_views(args@.take(i as int)), args@[i as int]@);
            assert(arg_views(args@.take(i as int + 1)) =~= arg_views(args@.take(i as int)).push(
                args@[i as int]@,
            ));
            assert(s@ =~= joined_args(arg_views(args@.take(i as int + 1))));
        }
        i = i + 1;
    }
    proof {
        assert(args@.take(args@.len() as int) =~= args@);
    }
    s
}

/// `part` stands verbatim at position `i` of `text`.
pub open spec fn occurs_at(text: Seq<char>, part: Seq<char>, i: int) -> bool {
    &&& 0 <= i
    &&& i + part.len() <= text.len()
    &&& text.subrange(i, i + part.len()) == part
}

/// `part` stands verbatim somewhere in `text`.
pub open spec fn contains_part(text: Seq<char>, part: Seq<char>) -> bool {
    exists|i: int| occurs_at(text, part, i)
}

proof fn lemma_occurs_mid(pre: Seq<char>, part: Seq<char>, post: Seq<char>, whole: Seq<char>)
    requires
        whole == pre + part + post,
    ensures
        occurs_at(whole, part, pre.len() as int),
{
    assert(whole.subrange(pre.len() as int, pre.len() + part.len() as int) =~= part);
}

/// The stub's layout, for every identifier, payload length, and
/// argument list: it starts with the shell shebang line, embeds
/// `CACHE_ID="<identifier>"` and `PAYLOAD_SIZE=<length>` verbatim,
/// places the space-joined extra arguments between the runtime binary
/// invocation and the `-jar` flag, and ends with the payload marker
/// line.
#[verifier::rlimit(50)]
pub proof fn lemma_stub_layout(hash: Seq<char>, size: u64, args: Seq<Seq<char>>)
    ensures
        occurs_at(stub_text(hash, size, args), "#!/bin/sh\n"@, 0),
        contains_part(stub_text(hash, size, args), "CACHE_ID=\""@ + hash + "\""@),
        contains_part(
            stub_text(hash, size, args),
            "PAYLOAD_SIZE="@ + dec_digits(size as int) + "\n"@,
        ),
        contains_part(
            stub_text(hash, size, args),
            "exec \"$CACHE_DIR/runtime/bin/java\""@ + joined_args(args) + " -jar"@,
        ),
        occurs_at(
            stub_text(hash, size, args),
            "# --- PAYLOAD BELOW ---\n"@,
            stub_text(hash, size, args).len() - "# --- PAYLOAD BELOW ---\n"@.len(),
        ),
{
    let l1 = "#!/bin/sh\n"@;
    let l2 = "set -e\n"@;
    let l3 = "CACHE_ID=\""@;
    let l5 = "\""@;
    let l6 = "\nCACHE_DIR=\"${HOME}/.jbundle/cache/${CACHE_ID}\"\n"@;
    let l7 = "PAYLOAD_SIZE="@;
    let d = dec_digits(size as int);
    let l9 = "\n"@;
    let l10 =
        "\ncat >&2 <<'BANNER'\n   _ _                    _ _\n  (_) |__  _   _ _ __   __| | | ___\n  | | '_ \\| | | | '_ \\ / _` | |/ _ \\\n  | | |_) | |_| | | | | (_| | |  __/\n _/ |_.__/ \\__,_|_| |_|\\__,_|_|\\___|\n|__/\nBANNER\n\nif [ ! -d \"$CACHE_DIR/runtime\" ]; then\n    mkdir -p \"$CACHE_DIR\"\n    echo \"Extracting runtime (first run)...\" >&2\n    tail -c \"$PAYLOAD_SIZE\" \"$0\" | tar xzf - -C \"$CACHE_DIR\"\nfi\n\n"@;
    let l11 = "exec \"$CACHE_DIR/runtime/bin/java\""@;
    let j = joined_args(args);
    let l13 = " -jar"@;
    let l14 = " \"$CACHE_DIR/app.jar\" \"$@\"\nexit 0\n"@;
    let l15 = "# --- PAYLOAD BELOW ---\n"@;
    let stub = stub_text(hash, size, args);

    assert(stub =~= Seq::<char>::empty() + l1 + (l2 + l3 + hash + l5 + l6 + l7 + d + l9 + l10 + l11
        + j + l13 + l14 + l15));
    lemma_occurs_mid(
        Seq::<char>::empty(),
        l1,
        l2 + l3 + hash + l5 + l6 + l7 + d + l9 + l10 + l11 + j + l13 + l14 + l15,
        stub,
    );

    assert(stub =~= (l1 + l2) + (l3 + hash + l5) + (l6 + l7 + d + l9 + l10 + l11 + j + l13 + l14
        + l15));
    lemma_occurs_mid(
        l1 + l2,
        l3 + hash + l5,
        l6 + l7 + d + l9 + l10 + l11 + j + l13 + l14 + l15,
        stub,
    );

    assert(stub =~= (l1 + l2 + l3 + hash + l5 + l6) + (l7 + d + l9) + (l10 + l11 + j + l13 + l14
        + l15));
    lemma_occurs_mid(
        l1 + l2 + l3 + hash + l5 + l6,
        l7 + d + l9,
        l10 + l11 + j + l13 + l14 + l15,
        stub,
    );

    assert(stub =~= (l1 + l2 + l3 + hash + l5 + l6 + l7 + d + l9 + l10) + (l11 + j + l13) + (l14
        + l15));
    lemma_occurs_mid(
        l1 + l2 + l3 + hash + l5 + l6 + l7 + d + l9 + l10,
        l11 + j + l13,
        l14 + l15,
        stub,
    );

    assert(stub =~= (l1 + l2 + l3 + hash + l5 + l6 + l7 + d + l9 + l10 + l11 + j + l13 + l14) + l15
        + Seq::<char>::empty());
    lemma_occurs_mid(
        l1 + l2 + l3 + hash + l5 + l6 + l7 + d + l9 + l10 + l11 + j + l13 + l14,
        l15,
        Seq::<char>::empty(),
        stub,
    );
}

/// Renders the launcher stub for the given payload content identifier,
/// payload byte count, and extra runtime arguments.
pub fn generate(payload_hash: &str, payload_size: u64, jvm_args: &[String]) -> (stub: String)
    ensures
        stub@ == stub_text(payload_hash@, payload_size, arg_views(jvm_args@)),
{
    let mut s = String::from_str("#!/bin/sh\n");
    s.append("set -e\n");
    s.append("CACHE_ID=\"");
    s.append(payload_hash);
    s.append("\"");
    s.append("\nCACHE_DIR=\"${HOME}/.jbundle/cache/${CACHE_ID}\"\n");
    s.append("PAYLOAD_SIZE=");
    let size_str = crate::num::u64_to_string(payload_size);
    s.append(size_str.as_str());
    s.append("\n");
    s.append(
        "\ncat >&2 <<'BANNER'\n   _ _                    _ _\n  (_) |__  _   _ _ __   __| | | ___\n  | | '_ \\| | | | '_ \\ / _` | |/ _ \\\n  | | |_) | |_| | | | | (_| | |  __/\n _/ |_.__/ \\__,_|_| |_|\\__,_|_|\\___|\n|__/\nBANNER\n\nif [ ! -d \"$CACHE_DIR/runtime\" ]; then\n    mkdir -p \"$CACHE_DIR\"\n    echo \"Extracting runtime (first run)...\" >&2\n    tail -c \"$PAYLOAD_SIZE\" \"$0\" | tar xzf - -C \"$CACHE_DIR\"\nfi\n\n",
    );
    s.append("exec \"$CACHE_DIR/runtime/bin/java\"");
    let args_str = join_args(jvm_args);
    s.append(args_str.as_str());
    s.append(" -jar");
    s.append(" \"$CACHE_DIR/app.jar\" \"$@\"\nexit 0\n");
    s.append("# --- PAYLOAD BELOW ---\n");
    s
}

} // verus!
