use vstd::prelude::*;

verus! {

/// The rendering of a sequence of tokens as one line: the tokens in order,
/// separated by single spaces.
pub open spec fn joined(tokens: Seq<Seq<char>>) -> Seq<char>
    decreases tokens.len(),
{
    if tokens.len() == 0 {
        Seq::empty()
    } else if tokens.len() == 1 {
        tokens[0]
    } else {
        tokens[0] + seq![' '] + joined(tokens.drop_first())
    }
}

/// Appending one more token to a non-empty token sequence appends a space
/// and the token to the rendering.
pub proof fn lemma_joined_push(tokens: Seq<Seq<char>>, token: Seq<char>)
    requires
        tokens.len() > 0,
    ensures
        joined(tokens.push(token)) == joined(tokens) + seq![' '] + token,
    decreases tokens.len(),
{
    let p = tokens.push(token);
    if tokens.len() == 1 {
        assert(p.drop_first() =~= seq![token]);
        assert(joined(seq![token]) == token);
        assert(joined(p) == p[0] + seq![' '] + token);
        assert(joined(p) =~= joined(tokens) + seq![' '] + token);
    } else {
        lemma_joined_push(tokens.drop_first(), token);
        assert(p.drop_first() =~= tokens.drop_first().push(token));
        assert(joined(p) == p[0] + seq![' '] + joined(tokens.drop_first().push(token)));
        assert(joined(p) =~= joined(tokens) + seq![' '] + token);
    }
}

/// The naive whitespace split of a line: the maximal runs of non-space
/// characters, in order. Spaces only separate tokens and produce none of
/// their own.
pub open spec fn split_ws(line: Seq<char>) -> Seq<Seq<char>> {
    split_from(line, Seq::empty())
}

/// One pass over `rest`, with `cur` the partial token read so far.
pub open spec fn split_from(rest: Seq<char>, cur: Seq<char>) -> Seq<Seq<char>>
    decreases rest.len(),
{
    if rest.len() == 0 {
        if cur.len() == 0 {
            Seq::empty()
        } else {
            seq![cur]
        }
    } else if rest[0] == ' ' {
        if cur.len() == 0 {
            split_from(rest.drop_first(), Seq::empty())
        } else {
            seq![cur] + split_from(rest.drop_first(), Seq::empty())
        }
    } else {
        split_from(rest.drop_first(), cur.push(rest[0]))
    }
}

/// Reading a space-free token moves it whole into the partial token.
proof fn lemma_split_from_token(token: Seq<char>, rest: Seq<char>, cur: Seq<char>)
    requires
        forall|j: int| 0 <= j < token.len() ==> #[trigger] token[j] != ' ',
    ensures
        split_from(token + rest, cur) == split_from(rest, cur + token),
    decreases token.len(),
{
    if token.len() == 0 {
        assert(token + rest =~= rest);
        assert(cur + token =~= cur);
    } else {
        assert((token + rest)[0] == token[0]);
        assert((token + rest).drop_first() =~= token.drop_first() + rest);
        lemma_split_from_token(token.drop_first(), rest, cur.push(token[0]));
        assert(cur.push(token[0]) + token.drop_first() =~= cur + token);
    }
}

/// Splitting a rendered line on whitespace gives back exactly the tokens
/// that were joined, provided each token is non-empty and space-free.
pub proof fn lemma_split_joined(tokens: Seq<Seq<char>>)
    requires
        forall|i: int| 0 <= i < tokens.len() ==> (#[trigger] tokens[i]).len() > 0,
        forall|i: int, j: int|
            0 <= i < tokens.len() && 0 <= j < tokens[i].len() ==> #[trigger] tokens[i][j] != ' ',
    ensures
        split_ws(joined(tokens)) == tokens,
    decreases tokens.len(),
{
    if tokens.len() == 0 {
    } else if tokens.len() == 1 {
        lemma_split_from_token(tokens[0], Seq::empty(), Seq::empty());
        assert(tokens[0] + Seq::<char>::empty() =~= tokens[0]);
        assert(Seq::<char>::empty() + tokens[0] =~= tokens[0]);
        assert(split_ws(joined(tokens)) =~= tokens);
    } else {
        let dt = tokens.drop_first();
        let tail = seq![' '] + joined(dt);
        assert(joined(tokens) == tokens[0] + seq![' '] + joined(dt));
        assert(tokens[0] + seq![' '] + joined(dt) =~= tokens[0] + tail);
        lemma_split_from_token(tokens[0], tail, Seq::empty());
        assert(Seq::<char>::empty() + tokens[0] =~= tokens[0]);
        assert(tail[0] == ' ');
        assert(tail.drop_first() =~= joined(dt));
        assert(forall|i: int| 0 <= i < dt.len() ==> (#[trigger] dt[i]).len() > 0);
        assert(forall|i: int, j: int|
            0 <= i < dt.len() && 0 <= j < dt[i].len() ==> #[trigger] dt[i][j] != ' ');
        lemma_split_joined(dt);
        assert(seq![tokens[0]] + dt =~= tokens);
        assert(split_ws(joined(tokens)) =~= tokens);
    }
}

/// Law: splitting the rendering of a command (its path followed by its
/// arguments, joined with single spaces) naively on whitespace yields the
/// path followed by exactly the arguments, in order — provided the path and
/// every argument are non-empty and contain no space.
pub proof fn lemma_render_splits(path: Seq<char>, args: Seq<Seq<char>>)
    requires
        path.len() > 0,
        forall|j: int| 0 <= j < path.len() ==> #[trigger] path[j] != ' ',
        forall|i: int| 0 <= i < args.len() ==> (#[trigger] args[i]).len() > 0,
        forall|i: int, j: int|
            0 <= i < args.len() && 0 <= j < args[i].len() ==> #[trigger] args[i][j] != ' ',
    ensures
        split_ws(joined(seq![path] + args)) == seq![path] + args,
{
    let tokens = seq![path] + args;
    assert forall|i: int| 0 <= i < tokens.len() implies (#[trigger] tokens[i]).len() > 0 by {
        if i == 0 {
            assert(tokens[0] == path);
        } else {
            assert(tokens[i] == args[i - 1]);
        }
    }
    assert forall|i: int, j: int|
        0 <= i < tokens.len() && 0 <= j < tokens[i].len() implies #[trigger] tokens[i][j]
        != ' ' by {
        if i == 0 {
            assert(tokens[0] == path);
        } else {
            assert(tokens[i] == args[i - 1]);
        }
    }
    lemma_split_joined(tokens);
}

} // verus!
