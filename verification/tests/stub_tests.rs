use jbundle::generate;

#[test]
fn stub_starts_with_shebang() {
    let stub = generate("abc123", 1024, &[]);
    assert!(stub.starts_with("#!/bin/sh\n"));
}

#[test]
fn stub_contains_payload_hash() {
    let stub = generate("deadbeef12345678", 2048, &[]);
    assert!(stub.contains("CACHE_ID=\"deadbeef12345678\""));
}

#[test]
fn stub_contains_payload_size() {
    let stub = generate("abc", 999999, &[]);
    assert!(stub.contains("PAYLOAD_SIZE=999999"));
}

#[test]
fn stub_without_jvm_args() {
    let stub = generate("abc", 100, &[]);
    assert!(stub.contains("exec \"$CACHE_DIR/runtime/bin/java\" -jar"));
}

#[test]
fn stub_with_jvm_args() {
    let args = vec!["-Xmx512m".to_string(), "-Dapp.env=prod".to_string()];
    let stub = generate("abc", 100, &args);
    assert!(stub.contains("exec \"$CACHE_DIR/runtime/bin/java\" -Xmx512m -Dapp.env=prod -jar"));
}

#[test]
fn stub_ends_with_payload_marker() {
    let stub = generate("abc", 100, &[]);
    assert!(stub.ends_with("# --- PAYLOAD BELOW ---\n"));
}

#[test]
fn stub_contains_banner() {
    let stub = generate("abc", 100, &[]);
    assert!(stub.contains("BANNER"));
    assert!(stub.contains("(_) |__"));
}

#[test]
fn stub_full_text_is_exact() {
    let stub = generate("abc", 100, &[]);
    let expected = "#!/bin/sh\nset -e\nCACHE_ID=\"abc\"\nCACHE_DIR=\"${HOME}/.jbundle/cache/${CACHE_ID}\"\nPAYLOAD_SIZE=100\n\ncat >&2 <<'BANNER'\n   _ _                    _ _\n  (_) |__  _   _ _ __   __| | | ___\n  | | '_ \\| | | | '_ \\ / _` | |/ _ \\\n  | | |_) | |_| | | | | (_| | |  __/\n _/ |_.__/ \\__,_|_| |_|\\__,_|_|\\___|\n|__/\nBANNER\n\nif [ ! -d \"$CACHE_DIR/runtime\" ]; then\n    mkdir -p \"$CACHE_DIR\"\n    echo \"Extracting runtime (first run)...\" >&2\n    tail -c \"$PAYLOAD_SIZE\" \"$0\" | tar xzf - -C \"$CACHE_DIR\"\nfi\n\nexec \"$CACHE_DIR/runtime/bin/java\" -jar \"$CACHE_DIR/app.jar\" \"$@\"\nexit 0\n# --- PAYLOAD BELOW ---\n";
    assert_eq!(stub, expected);
}

#[test]
fn stub_with_one_jvm_arg() {
    let args = vec!["-Xss1m".to_string()];
    let stub = generate("abc", 7, &args);
    assert!(stub.contains("exec \"$CACHE_DIR/runtime/bin/java\" -Xss1m -jar"));
}

#[test]
fn stub_embeds_size_zero() {
    let stub = generate("abc", 0, &[]);
    assert!(stub.contains("PAYLOAD_SIZE=0\n"));
}

#[test]
fn stub_embeds_largest_size() {
    let stub = generate("abc", u64::MAX, &[]);
    assert!(stub.contains("PAYLOAD_SIZE=18446744073709551615\n"));
}
