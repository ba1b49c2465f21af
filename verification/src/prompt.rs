//! The prompt builder: a pure function from an ordered list of ingredient
//! items to the single instruction string sent to the language model. The
//! produced string is pinned down exactly by `prompt_text`, so two calls on
//! the same list always return the same string.
use vstd::prelude::*;

verus! {

/// The fixed instruction that precedes the item list: what to produce and the
/// exact JSON shape the answer must have.
pub open spec fn prompt_head() -> Seq<char> {
    "Please suggest me at most 5 recipes based on the items I provide. Feel free to add condiments I did not mention to make it possible. Respond with an array of exactly 1 to 5 JSON objects, each containing the following keys and their respective values: - name: The name of the dish (string). - ingredients: A list of all ingredients in the dish (array of strings). - additional_condiments: A list of condiments added to the recipe that were not included in the provided items (array of strings). - prep_instructions: An array of steps for preparing the dish (array of strings). - nutritional_info: An object with keys protein, carbs, fat, and total_calories, with values as numbers representing the quantities (in grams or calories). Items provided: "@
}

/// The fixed closing sentence that follows the item list.
pub open spec fn prompt_tail() -> Seq<char> {
    ". Ensure the response strictly adheres to this structure."@
}

/// An item as it appears inside the list representation: wrapped in double
/// quotes, its characters verbatim.
pub open spec fn quoted(item: Seq<char>) -> Seq<char> {
    "\""@ + item + "\""@
}

/// The comma-separated interior of the list representation.
pub open spec fn items_inner(items: Seq<Seq<char>>) -> Seq<char>
    decreases items.len(),
{
    if items.len() == 0 {
        Seq::<char>::empty()
    } else if items.len() == 1 {
        quoted(items[0])
    } else {
        items_inner(items.drop_last()) + ", "@ + quoted(items.last())
    }
}

/// The textual list representation of the items: the quoted items, separated
/// by comma and space, between square brackets.
pub open spec fn items_repr(items: Seq<Seq<char>>) -> Seq<char> {
    "["@ + items_inner(items) + "]"@
}

/// The whole prompt: fixed head, the list representation of the items, fixed
/// tail. A function of the item list alone.
pub open spec fn prompt_text(items: Seq<Seq<char>>) -> Seq<char> {
    prompt_head() + items_repr(items) + prompt_tail()
}

/// The prompt builder is deterministic: the same ordered item list always
/// yields the same prompt string, since the built string equals `prompt_text`
/// of the list and nothing else enters into it.
pub proof fn lemma_prompt_deterministic(a: Seq<Seq<char>>, b: Seq<Seq<char>>)
    requires
        a == b,
    ensures
        prompt_text(a) == prompt_text(b),
{
}

/// Taking one more item extends the interior by a separator (when it is not
/// the first item) and that item, quoted.
proof fn lemma_items_inner_take_one_more(items: Seq<Seq<char>>, i: int)
    requires
        0 <= i < items.len(),
    ensures
        i == 0 ==> items_inner(items.take(1)) == quoted(items[0]),
        i > 0 ==> items_inner(items.take(i + 1)) == items_inner(items.take(i)) + ", "@ + quoted(
            items[i],
        ),
{
    let t = items.take(i + 1);
    if i == 0 {
        assert(t.len() == 1);
        assert(t[0] == items[0]);
    } else {
        assert(t.len() == i + 1 && t.len() > 1);
        assert(t.drop_last() =~= items.take(i));
        assert(t.last() == items[i]);
    }
}

/// Builds the instruction string for the given ordered items. Deterministic:
/// the result is exactly `prompt_text` of the items' characters, so equal
/// lists give equal strings; an empty list yields the well-formed prompt
/// around an empty list representation.
pub fn get_prompt(items: &Vec<String>) -> (r: String)
    ensures
        r@ == prompt_text(items.deep_view()),
{
    let ghost dv = items.deep_view();
    let mut s = String::from_str(
        "Please suggest me at most 5 recipes based on the items I provide. Feel free to add condiments I did not mention to make it possible. Respond with an array of exactly 1 to 5 JSON objects, each containing the following keys and their respective values: - name: The name of the dish (string). - ingredients: A list of all ingredients in the dish (array of strings). - additional_condiments: A list of condiments added to the recipe that were not included in the provided items (array of strings). - prep_instructions: An array of steps for preparing the dish (array of strings). - nutritional_info: An object with keys protein, carbs, fat, and total_calories, with values as numbers representing the quantities (in grams or calories). Items provided: ",
    );
    s.append("[");
    proof {
        assert(s@ =~= prompt_head() + "["@ + items_inner(dv.take(0)));
    }
    let n = items.len();
    let mut i: usize = 0;
    while i < n
        invariant
            i <= n,
            n == items.len(),
            dv == items.deep_view(),
            s@ == prompt_head() + "["@ + items_inner(dv.take(i as int)),
        decreases n - i,
    {
        if i > 0 {
            s.append(", ");
        }
        s.append("\"");
        s.append(items[i].as_str());
        s.append("\"");
        proof {
            lemma_items_inner_take_one_more(dv, i as int);
            assert(dv[i as int] == items@[i as int]@);
            assert(s@ =~= prompt_head() + "["@ + items_inner(dv.take(i as int + 1)));
        }
        i += 1;
    }
    s.append("]");
    s.append(". Ensure the response strictly adheres to this structure.");
    proof {
        assert(dv.take(n as int) =~= dv);
        assert(s@ =~= prompt_text(dv));
    }
    s
}

} // verus!
