//! Numbers as text, in the notation of the robot's script language.
//!
//! The text of a single number is whatever its `Display` gives. What is stated here is how the
//! texts of the numbers are put together.

use crate::messages::{JointState, Payload, Pose};
use core::fmt::Display;
use vstd::prelude::*;
use vstd::string::StringExecFns;

verus! {

/// `text` is a text that the `Display` of `n` gives.
pub open spec fn displays<N: Display>(n: N, text: Seq<char>) -> bool {
    exists|s: String|
        #[trigger] vstd::string::to_string_from_display_ensures::<N>(&n, s) && s@ == text
}

/// `text` is the only text that the `Display` of `n` gives.
pub open spec fn shows_as<N: Display>(n: N, text: Seq<char>) -> bool {
    forall|shown: Seq<char>| #[trigger] displays(n, shown) ==> shown == text
}

/// The items with a comma between neighbours.
pub open spec fn comma_separated(items: Seq<Seq<char>>) -> Seq<char>
    decreases items.len(),
{
    if items.len() == 0 {
        Seq::empty()
    } else if items.len() == 1 {
        items[0]
    } else {
        comma_separated(items.drop_last()) + ","@ + items.last()
    }
}

/// `texts` are the texts of `numbers`, one by one.
pub open spec fn display_all<N: Display>(numbers: Seq<N>, texts: Seq<Seq<char>>) -> bool {
    &&& texts.len() == numbers.len()
    &&& forall|i: int| 0 <= i < numbers.len() ==> displays(numbers[i], #[trigger] texts[i])
}

/// `text` lists the numbers, with a comma between neighbours.
pub open spec fn lists<N: Display>(numbers: Seq<N>, text: Seq<char>) -> bool {
    exists|texts: Seq<Seq<char>>| #[trigger]
        display_all(numbers, texts) && text == comma_separated(texts)
}

/// `text` is the list of the joint positions in brackets, or nothing where the arm has not six
/// joints.
pub open spec fn joint_text<D: Display>(position: Seq<D>, text: Seq<char>) -> bool {
    if position.len() == 6 {
        exists|list: Seq<char>| #[trigger] lists(position, list) && text == "["@ + list + "]"@
    } else {
        text == Seq::<char>::empty()
    }
}

/// The centre of gravity of a payload.
pub open spec fn centre_of_gravity<P>(p: Payload<P>) -> Seq<P> {
    seq![p.cog_x, p.cog_y, p.cog_z]
}

/// The inertia of a payload: the diagonal, then the products.
pub open spec fn inertia<P>(p: Payload<P>) -> Seq<P> {
    seq![p.ixx, p.iyy, p.izz, p.ixy, p.ixz, p.iyz]
}

/// `text` is the mass, the centre of gravity in brackets and the inertia in brackets.
pub open spec fn payload_text<P: Display>(p: Payload<P>, text: Seq<char>) -> bool {
    exists|mass: Seq<char>, cog: Seq<char>, products: Seq<char>|
        #![trigger displays(p.mass, mass), lists(centre_of_gravity(p), cog), lists(inertia(p), products)]
        {
            &&& displays(p.mass, mass)
            &&& lists(centre_of_gravity(p), cog)
            &&& lists(inertia(p), products)
            &&& text == mass + ",["@ + cog + "],["@ + products + "]"@
        }
}

/// The six numbers of a pose.
pub open spec fn coordinates<D>(p: Pose<D>) -> Seq<D> {
    seq![p.x, p.y, p.z, p.rx, p.ry, p.rz]
}

/// `text` is a pose literal of the script language.
pub open spec fn pose_text<D: Display>(p: Pose<D>, text: Seq<char>) -> bool {
    exists|list: Seq<char>| #[trigger]
        lists(coordinates(p), list) && text == "p["@ + list + "]"@
}

/// The texts behind a vector of strings.
pub open spec fn string_views(items: Seq<String>) -> Seq<Seq<char>> {
    items.map_values(|s: String| s@)
}

/// Puts the items into one text, with a comma between neighbours.
pub fn join_with_commas(items: &Vec<String>) -> (text: String)
    ensures
        text@ == comma_separated(string_views(items@)),
{
    let mut text = String::new();
    let mut i: usize = 0;
    while i < items.len()
        invariant
            i <= items.len(),
            text@ == comma_separated(string_views(items@).take(i as int)),
        decreases items.len() - i,
    {
        proof {
            let next = string_views(items@).take(i + 1);
            assert(next.drop_last() =~= string_views(items@).take(i as int));
            assert(next.last() == items@[i as int]@);
        }
        if i > 0 {
            text.append(",");
        }
        text.append(items[i].as_str());
        i = i + 1;
    }
    assert(string_views(items@).take(items@.len() as int) =~= string_views(items@));
    text
}

/// Lists the numbers, with a comma between neighbours.
pub fn list_numbers<N: Display>(numbers: &Vec<N>) -> (text: String)
    ensures
        lists(numbers@, text@),
{
    let mut texts: Vec<String> = Vec::new();
    let mut i: usize = 0;
    while i < numbers.len()
        invariant
            i <= numbers.len(),
            texts.len() == i,
            forall|k: int| 0 <= k < i ==> displays(numbers@[k], #[trigger] texts@[k]@),
        decreases numbers.len() - i,
    {
        let shown = numbers[i].to_string();
        assert(displays(numbers@[i as int], shown@));
        texts.push(shown);
        i = i + 1;
    }
    assert(display_all(numbers@, string_views(texts@)));
    join_with_commas(&texts)
}

/// The joint positions of an arm of six joints as a list in brackets; the empty text for any
/// other number of joints.
pub fn joint_pose_to_string<D: Display>(j: &JointState<D>) -> (text: String)
    ensures
        joint_text(j.position@, text@),
{
    if j.position.len() == 6 {
        let list = list_numbers(&j.position);
        "[".to_string().concat(list.as_str()).concat("]")
    } else {
        String::new()
    }
}

/// The payload as arguments of a script call: the mass, the centre of gravity and the inertia.
pub fn payload_to_string<P: Display>(p: &Payload<P>) -> (text: String)
    ensures
        payload_text(*p, text@),
{
    let mass = p.mass.to_string();
    let cog_texts: Vec<String> = vec![
        p.cog_x.to_string(),
        p.cog_y.to_string(),
        p.cog_z.to_string(),
    ];
    let inertia_texts: Vec<String> = vec![
        p.ixx.to_string(),
        p.iyy.to_string(),
        p.izz.to_string(),
        p.ixy.to_string(),
        p.ixz.to_string(),
        p.iyz.to_string(),
    ];
    assert(display_all(centre_of_gravity(*p), string_views(cog_texts@)));
    assert(display_all(inertia(*p), string_views(inertia_texts@)));
    let cog = join_with_commas(&cog_texts);
    let products = join_with_commas(&inertia_texts);
    assert(displays(p.mass, mass@));
    assert(lists(centre_of_gravity(*p), cog@));
    assert(lists(inertia(*p), products@));
    mass.concat(",[").concat(cog.as_str()).concat("],[").concat(products.as_str()).concat("]")
}

/// The pose as a literal of the script language.
pub fn pose_to_string<D: Display>(p: &Pose<D>) -> (text: String)
    ensures
        pose_text(*p, text@),
{
    let texts: Vec<String> = vec![
        p.x.to_string(),
        p.y.to_string(),
        p.z.to_string(),
        p.rx.to_string(),
        p.ry.to_string(),
        p.rz.to_string(),
    ];
    assert(display_all(coordinates(*p), string_views(texts@)));
    let list = join_with_commas(&texts);
    assert(lists(coordinates(*p), list@));
    "p[".to_string().concat(list.as_str()).concat("]")
}

/// The text holds no comma and no bracket.
pub open spec fn plain(text: Seq<char>) -> bool {
    !text.contains(',') && !text.contains('[') && !text.contains(']')
}

/// Every text that the `Display` of the type gives is free of commas and brackets, as those of the
/// numbers of the standard library are.
pub open spec fn shows_plainly<N: Display>() -> bool {
    forall|n: N, text: Seq<char>| #[trigger] displays(n, text) ==> plain(text)
}

/// The text, cut at its commas.
pub open spec fn comma_split(text: Seq<char>) -> Seq<Seq<char>>
    decreases text.len(),
{
    if text.len() == 0 {
        seq![Seq::empty()]
    } else {
        let before = comma_split(text.drop_last());
        if text.last() == ',' {
            before.push(Seq::empty())
        } else {
            before.drop_last().push(before.last().push(text.last()))
        }
    }
}

/// What stands between the first `n` characters and the last one.
pub open spec fn inside(text: Seq<char>, n: int) -> Seq<char> {
    text.subrange(n, text.len() - 1)
}

/// The text without its brackets.
pub open spec fn without_brackets(text: Seq<char>) -> Seq<char> {
    text.filter(|c: char| c != '[' && c != ']')
}

/// The ten numbers of a payload.
pub open spec fn payload_numbers<P>(p: Payload<P>) -> Seq<P> {
    seq![p.mass] + centre_of_gravity(p) + inertia(p)
}

/// The `Display` of the type gives one text only for each value, as those of the numbers of the
/// standard library do.
pub open spec fn shows_one_text<N: Display>() -> bool {
    forall|n: N, a: Seq<char>, b: Seq<char>|
        #![trigger displays(n, a), displays(n, b)]
        displays(n, a) && displays(n, b) ==> a == b
}

/// `read` gives the number back from any text that its `Display` gives.
pub open spec fn reads<N: Display>(read: spec_fn(Seq<char>) -> N, n: N) -> bool {
    forall|text: Seq<char>| #[trigger] displays(n, text) ==> read(text) == n
}

/// The items are as many as the numbers, and each is a text of its number. So whatever reads a
/// number's text back reads the number out of its item.
pub open spec fn read_back<N: Display>(numbers: Seq<N>, items: Seq<Seq<char>>) -> bool {
    &&& display_all(numbers, items)
    &&& forall|read: spec_fn(Seq<char>) -> N, i: int|
        #![trigger reads(read, numbers[i])]
        0 <= i < numbers.len() && reads(read, numbers[i]) ==> read(items[i]) == numbers[i]
}

/// `shown` is what `to_string` may give for the number.
pub open spec fn shown_as<N: Display>(n: N, shown: String) -> bool {
    vstd::string::to_string_from_display_ensures::<N>(&n, shown)
}

/// After `opening` the text has the six numbers, in this order, with a comma between neighbours,
/// and then a closing bracket; it has nothing else.
pub open spec fn is_list_of_six<N: Display>(
    text: Seq<char>,
    opening: Seq<char>,
    a: N,
    b: N,
    c: N,
    d: N,
    e: N,
    f: N,
) -> bool {
    exists|ta: String, tb: String, tc: String, td: String, te: String, tf: String|
        #![trigger shown_as(a, ta), shown_as(b, tb), shown_as(c, tc), shown_as(d, td), shown_as(e, te), shown_as(f, tf)]
        {
            &&& shown_as(a, ta)
            &&& shown_as(b, tb)
            &&& shown_as(c, tc)
            &&& shown_as(d, td)
            &&& shown_as(e, te)
            &&& shown_as(f, tf)
            &&& text == opening + ta@ + ","@ + tb@ + ","@ + tc@ + ","@ + td@ + ","@ + te@ + ","@
                + tf@ + "]"@
        }
}

/// After `opening` the text has the three numbers, in this order, with a comma between neighbours,
/// and then a closing bracket; it has nothing else.
pub open spec fn is_list_of_three<N: Display>(
    text: Seq<char>,
    opening: Seq<char>,
    a: N,
    b: N,
    c: N,
) -> bool {
    exists|ta: String, tb: String, tc: String|
        #![trigger shown_as(a, ta), shown_as(b, tb), shown_as(c, tc)]
        {
            &&& shown_as(a, ta)
            &&& shown_as(b, tb)
            &&& shown_as(c, tc)
            &&& text == opening + ta@ + ","@ + tb@ + ","@ + tc@ + "]"@
        }
}

/// The text is the mass, then the centre of gravity in brackets of its own, then the inertia in
/// brackets of its own, with a comma before each opening bracket.
pub open spec fn is_payload_literal<P: Display>(text: Seq<char>, p: Payload<P>) -> bool {
    exists|mass: String, cog: Seq<char>, products: Seq<char>|
        #![trigger shown_as(p.mass, mass), is_list_of_three(cog, "["@, p.cog_x, p.cog_y, p.cog_z), is_list_of_six(products, "["@, p.ixx, p.iyy, p.izz, p.ixy, p.ixz, p.iyz)]
        {
            &&& shown_as(p.mass, mass)
            &&& is_list_of_three(cog, "["@, p.cog_x, p.cog_y, p.cog_z)
            &&& is_list_of_six(products, "["@, p.ixx, p.iyy, p.izz, p.ixy, p.ixz, p.iyz)
            &&& text == mass@ + ","@ + cog + ","@ + products
        }
}

/// What stands behind a text of a number.
proof fn lemma_shown<N: Display>(n: N, text: Seq<char>) -> (shown: String)
    requires
        displays(n, text),
    ensures
        shown_as(n, shown),
        shown@ == text,
{
    choose|s: String|
        #[trigger] vstd::string::to_string_from_display_ensures::<N>(&n, s) && s@ == text
}

/// A text that is displayed is a text that `to_string` gives, letter for letter.
pub proof fn law_shown_text<N: Display>(n: N, text: Seq<char>)
    requires
        displays(n, text),
    ensures
        exists|shown: String| #[trigger]
            vstd::string::to_string_from_display_ensures::<N>(&n, shown) && shown@ == text,
{
    let shown = lemma_shown(n, text);
    assert(vstd::string::to_string_from_display_ensures::<N>(&n, shown));
}

/// A list of six numbers holds each of them in its place.
proof fn lemma_six_in_their_places<N: Display>(
    numbers: Seq<N>,
    list: Seq<char>,
    opening: Seq<char>,
)
    requires
        numbers.len() == 6,
        lists(numbers, list),
    ensures
        is_list_of_six(
            opening + list + "]"@,
            opening,
            numbers[0],
            numbers[1],
            numbers[2],
            numbers[3],
            numbers[4],
            numbers[5],
        ),
{
    let t = choose|texts: Seq<Seq<char>>| #[trigger]
        display_all(numbers, texts) && list == comma_separated(texts);
    let a = lemma_shown(numbers[0], t[0]);
    let b = lemma_shown(numbers[1], t[1]);
    let c = lemma_shown(numbers[2], t[2]);
    let d = lemma_shown(numbers[3], t[3]);
    let e = lemma_shown(numbers[4], t[4]);
    let f = lemma_shown(numbers[5], t[5]);
    reveal_with_fuel(comma_separated, 6);
    assert(list == t[0] + ","@ + t[1] + ","@ + t[2] + ","@ + t[3] + ","@ + t[4] + ","@ + t[5]);
    assert(opening + list + "]"@ =~= opening + a@ + ","@ + b@ + ","@ + c@ + ","@ + d@ + ","@ + e@
        + ","@ + f@ + "]"@);
}

/// A list of three numbers holds each of them in its place.
proof fn lemma_three_in_their_places<N: Display>(
    numbers: Seq<N>,
    list: Seq<char>,
    opening: Seq<char>,
)
    requires
        numbers.len() == 3,
        lists(numbers, list),
    ensures
        is_list_of_three(opening + list + "]"@, opening, numbers[0], numbers[1], numbers[2]),
{
    let t = choose|texts: Seq<Seq<char>>| #[trigger]
        display_all(numbers, texts) && list == comma_separated(texts);
    let a = lemma_shown(numbers[0], t[0]);
    let b = lemma_shown(numbers[1], t[1]);
    let c = lemma_shown(numbers[2], t[2]);
    reveal_with_fuel(comma_separated, 3);
    assert(list == t[0] + ","@ + t[1] + ","@ + t[2]);
    assert(opening + list + "]"@ =~= opening + a@ + ","@ + b@ + ","@ + c@ + "]"@);
}

/// A pose literal has the translation along the three axes and then the rotation about them, in
/// the order of the axes.
pub proof fn law_pose_literal<D: Display>(p: Pose<D>, text: Seq<char>)
    requires
        pose_text(p, text),
    ensures
        is_list_of_six(text, "p["@, p.x, p.y, p.z, p.rx, p.ry, p.rz),
{
    let list = choose|list: Seq<char>| #[trigger]
        lists(coordinates(p), list) && text == "p["@ + list + "]"@;
    lemma_six_in_their_places(coordinates(p), list, "p["@);
}

/// The text of six joints has their positions in order; that of any other number of joints has
/// nothing.
pub proof fn law_joint_literal<D: Display>(position: Seq<D>, text: Seq<char>)
    requires
        joint_text(position, text),
    ensures
        position.len() == 6 ==> is_list_of_six(
            text,
            "["@,
            position[0],
            position[1],
            position[2],
            position[3],
            position[4],
            position[5],
        ),
        position.len() != 6 ==> text == Seq::<char>::empty(),
{
    if position.len() == 6 {
        let list = choose|list: Seq<char>| #[trigger]
            lists(position, list) && text == "["@ + list + "]"@;
        lemma_six_in_their_places(position, list, "["@);
    }
}

/// The texts of the three parts of a payload.
proof fn lemma_parts_of_a_payload<P: Display>(p: Payload<P>, text: Seq<char>) -> (parts: (
    Seq<char>,
    Seq<char>,
    Seq<char>,
))
    requires
        payload_text(p, text),
    ensures
        displays(p.mass, parts.0),
        lists(centre_of_gravity(p), parts.1),
        lists(inertia(p), parts.2),
        text == parts.0 + ",["@ + parts.1 + "],["@ + parts.2 + "]"@,
{
    choose|mass: Seq<char>, cog: Seq<char>, products: Seq<char>|
        #![trigger displays(p.mass, mass), lists(centre_of_gravity(p), cog), lists(inertia(p), products)]
        {
            &&& displays(p.mass, mass)
            &&& lists(centre_of_gravity(p), cog)
            &&& lists(inertia(p), products)
            &&& text == mass + ",["@ + cog + "],["@ + products + "]"@
        }
}

/// A payload text has the mass, then the three numbers of the centre of gravity in brackets of
/// their own, then the six of the inertia in brackets of their own.
pub proof fn law_payload_literal<P: Display>(p: Payload<P>, text: Seq<char>)
    requires
        payload_text(p, text),
    ensures
        is_payload_literal(text, p),
{
    let (mass, cog, products) = lemma_parts_of_a_payload(p, text);
    let shown = lemma_shown(p.mass, mass);
    lemma_three_in_their_places(centre_of_gravity(p), cog, "["@);
    lemma_six_in_their_places(inertia(p), products, "["@);
    reveal_strlit(",");
    reveal_strlit("[");
    reveal_strlit("]");
    reveal_strlit(",[");
    reveal_strlit("],[");
    assert(text =~= shown@ + ","@ + ("["@ + cog + "]"@) + ","@ + ("["@ + products + "]"@));
}

/// A text is cut into at least one item.
proof fn lemma_split_has_an_item(text: Seq<char>)
    ensures
        comma_split(text).len() > 0,
    decreases text.len(),
{
    if text.len() > 0 {
        lemma_split_has_an_item(text.drop_last());
    }
}

/// What follows a comma, up to the next, is an item of its own.
proof fn lemma_split_of_one_more(head: Seq<char>, item: Seq<char>)
    requires
        plain(item),
    ensures
        comma_split(head + ","@ + item) == comma_split(head).push(item),
    decreases item.len(),
{
    reveal_strlit(",");
    let text = head + ","@ + item;
    lemma_split_has_an_item(head);
    if item.len() == 0 {
        assert(text.drop_last() =~= head);
        assert(text.last() == ',');
        assert(item =~= Seq::empty());
    } else {
        let shorter = item.drop_last();
        assert(text.drop_last() =~= head + ","@ + shorter);
        assert(text.last() == item.last());
        assert(item.contains(item.last()));
        assert forall|c: char| shorter.contains(c) implies item.contains(c) by {
            let i = choose|i: int| 0 <= i < shorter.len() && shorter[i] == c;
            assert(item[i] == c);
        }
        lemma_split_of_one_more(head, shorter);
        assert(shorter.push(item.last()) =~= item);
        assert(comma_split(text) =~= comma_split(head).push(item));
    }
}

/// A text without a comma is a single item.
proof fn lemma_split_of_one(item: Seq<char>)
    requires
        plain(item),
    ensures
        comma_split(item) == seq![item],
    decreases item.len(),
{
    if item.len() > 0 {
        let shorter = item.drop_last();
        assert(item.contains(item.last()));
        assert forall|c: char| shorter.contains(c) implies item.contains(c) by {
            let i = choose|i: int| 0 <= i < shorter.len() && shorter[i] == c;
            assert(item[i] == c);
        }
        lemma_split_of_one(shorter);
        assert(shorter.push(item.last()) =~= item);
        assert(comma_split(item) =~= seq![item]);
    } else {
        assert(item =~= Seq::empty());
    }
}

/// A list can be read back: cut at its commas it gives its items.
pub proof fn law_list_gives_its_items(items: Seq<Seq<char>>)
    requires
        items.len() > 0,
        forall|i: int| 0 <= i < items.len() ==> plain(#[trigger] items[i]),
    ensures
        comma_split(comma_separated(items)) == items,
    decreases items.len(),
{
    if items.len() == 1 {
        lemma_split_of_one(items[0]);
        assert(items =~= seq![items[0]]);
    } else {
        law_list_gives_its_items(items.drop_last());
        lemma_split_of_one_more(comma_separated(items.drop_last()), items.last());
        assert(items =~= items.drop_last().push(items.last()));
    }
}

/// The texts of numbers are plain.
proof fn lemma_texts_are_plain<N: Display>(numbers: Seq<N>, texts: Seq<Seq<char>>)
    requires
        shows_plainly::<N>(),
        display_all(numbers, texts),
    ensures
        forall|i: int| 0 <= i < texts.len() ==> plain(#[trigger] texts[i]),
{
    assert forall|i: int| 0 <= i < texts.len() implies plain(#[trigger] texts[i]) by {
        assert(displays(numbers[i], texts[i]));
    }
}

/// A list of numbers can be read back: cut at its commas it gives the texts of the numbers.
pub proof fn law_list_gives_its_numbers<N: Display>(numbers: Seq<N>, text: Seq<char>)
    requires
        shows_plainly::<N>(),
        numbers.len() > 0,
        lists(numbers, text),
    ensures
        read_back(numbers, comma_split(text)),
{
    let texts = choose|texts: Seq<Seq<char>>| #[trigger]
        display_all(numbers, texts) && text == comma_separated(texts);
    lemma_texts_are_plain(numbers, texts);
    law_list_gives_its_items(texts);
    lemma_texts_read_back(numbers, texts);
}

/// Whatever reads a number's text back reads the numbers out of their texts.
proof fn lemma_texts_read_back<N: Display>(numbers: Seq<N>, texts: Seq<Seq<char>>)
    requires
        display_all(numbers, texts),
    ensures
        read_back(numbers, texts),
{
    assert forall|read: spec_fn(Seq<char>) -> N, i: int|
        #![trigger reads(read, numbers[i])]
        0 <= i < numbers.len() && reads(read, numbers[i]) implies read(texts[i]) == numbers[i] by {
        assert(displays(numbers[i], texts[i]));
    }
}

/// A pose literal can be read back: what stands in its brackets, cut at its commas, gives the
/// translation and then the rotation vector.
pub proof fn law_pose_text_reads_back<D: Display>(p: Pose<D>, text: Seq<char>)
    requires
        shows_plainly::<D>(),
        pose_text(p, text),
    ensures
        text == "p["@ + inside(text, 2) + "]"@,
        read_back(coordinates(p), comma_split(inside(text, 2))),
        ({
            let items = comma_split(inside(text, 2));
            &&& items.len() == 6
            &&& displays(p.x, items[0])
            &&& displays(p.y, items[1])
            &&& displays(p.z, items[2])
            &&& displays(p.rx, items[3])
            &&& displays(p.ry, items[4])
            &&& displays(p.rz, items[5])
        }),
{
    reveal_strlit("p[");
    reveal_strlit("]");
    let list = choose|list: Seq<char>| #[trigger]
        lists(coordinates(p), list) && text == "p["@ + list + "]"@;
    assert(inside(text, 2) =~= list);
    law_list_gives_its_numbers(coordinates(p), list);
    let items = comma_split(list);
    assert(forall|i: int| 0 <= i < 6 ==> displays(coordinates(p)[i], #[trigger] items[i]));
    assert(displays(coordinates(p)[0], items[0]) && displays(coordinates(p)[1], items[1]));
    assert(displays(coordinates(p)[2], items[2]) && displays(coordinates(p)[3], items[3]));
    assert(displays(coordinates(p)[4], items[4]) && displays(coordinates(p)[5], items[5]));
}

/// The text of six joints can be read back: what stands in its brackets, cut at its commas, gives
/// the positions.
pub proof fn law_joint_text_reads_back<D: Display>(position: Seq<D>, text: Seq<char>)
    requires
        shows_plainly::<D>(),
        position.len() == 6,
        joint_text(position, text),
    ensures
        text == "["@ + inside(text, 1) + "]"@,
        read_back(position, comma_split(inside(text, 1))),
{
    reveal_strlit("[");
    reveal_strlit("]");
    let list = choose|list: Seq<char>| #[trigger]
        lists(position, list) && text == "["@ + list + "]"@;
    assert(inside(text, 1) =~= list);
    law_list_gives_its_numbers(position, list);
}

/// Two texts lose their brackets one after the other.
proof fn lemma_brackets_of_a_concatenation(a: Seq<char>, b: Seq<char>)
    ensures
        without_brackets(a + b) == without_brackets(a) + without_brackets(b),
    decreases b.len(),
{
    reveal(Seq::filter);
    if b.len() == 0 {
        assert(a + b =~= a);
        assert(without_brackets(a + b) =~= without_brackets(a) + without_brackets(b));
    } else {
        assert((a + b).drop_last() =~= a + b.drop_last());
        lemma_brackets_of_a_concatenation(a, b.drop_last());
        assert(without_brackets(a + b) =~= without_brackets(a) + without_brackets(b));
    }
}

/// A text without brackets has none to lose.
proof fn lemma_plain_text_stays(text: Seq<char>)
    requires
        !text.contains('['),
        !text.contains(']'),
    ensures
        without_brackets(text) == text,
    decreases text.len(),
{
    reveal(Seq::filter);
    if text.len() > 0 {
        let shorter = text.drop_last();
        assert(text.contains(text.last()));
        assert forall|c: char| shorter.contains(c) implies text.contains(c) by {
            let i = choose|i: int| 0 <= i < shorter.len() && shorter[i] == c;
            assert(text[i] == c);
        }
        lemma_plain_text_stays(shorter);
        assert(shorter.push(text.last()) =~= text);
    }
    assert(without_brackets(text) =~= text);
}

/// A list of plain items has no brackets to lose.
proof fn lemma_list_stays(items: Seq<Seq<char>>)
    requires
        forall|i: int| 0 <= i < items.len() ==> plain(#[trigger] items[i]),
    ensures
        without_brackets(comma_separated(items)) == comma_separated(items),
    decreases items.len(),
{
    reveal_strlit(",");
    if items.len() == 0 {
        lemma_plain_text_stays(comma_separated(items));
    } else if items.len() == 1 {
        lemma_plain_text_stays(items[0]);
    } else {
        let head = comma_separated(items.drop_last());
        lemma_list_stays(items.drop_last());
        lemma_plain_text_stays(","@);
        lemma_plain_text_stays(items.last());
        lemma_brackets_of_a_concatenation(head + ","@, items.last());
        lemma_brackets_of_a_concatenation(head, ","@);
    }
}

/// A list of nothing is empty, and a list of one item is that item.
pub proof fn law_shortest_lists(item: Seq<char>)
    ensures
        comma_separated(Seq::empty()) == Seq::<char>::empty(),
        comma_separated(seq![item]) == item,
{
}

/// The texts behind strings are theirs, one by one and in order.
pub proof fn law_texts_behind_strings(items: Seq<String>)
    ensures
        string_views(items).len() == items.len(),
        forall|i: int| 0 <= i < items.len() ==> string_views(items)[i] == (#[trigger] items[i])@,
{
}

/// Two lists with a comma between them are the list of the items of both.
pub proof fn law_list_of_a_concatenation(a: Seq<Seq<char>>, b: Seq<Seq<char>>)
    requires
        a.len() > 0,
        b.len() > 0,
    ensures
        comma_separated(a + b) == comma_separated(a) + ","@ + comma_separated(b),
    decreases b.len(),
{
    assert((a + b).last() == b.last());
    if b.len() == 1 {
        assert((a + b).drop_last() =~= a);
    } else {
        assert((a + b).drop_last() =~= a + b.drop_last());
        law_list_of_a_concatenation(a, b.drop_last());
        assert(comma_separated(a + b) =~= comma_separated(a) + ","@ + comma_separated(b));
    }
}

/// A payload text without its brackets is one list.
proof fn lemma_payload_text_without_brackets(
    mass: Seq<char>,
    cog: Seq<Seq<char>>,
    products: Seq<Seq<char>>,
)
    requires
        plain(mass),
        cog.len() > 0,
        products.len() > 0,
        forall|i: int| 0 <= i < cog.len() ==> plain(#[trigger] cog[i]),
        forall|i: int| 0 <= i < products.len() ==> plain(#[trigger] products[i]),
    ensures
        without_brackets(
            mass + ",["@ + comma_separated(cog) + "],["@ + comma_separated(products) + "]"@,
        ) == comma_separated(seq![mass] + cog + products),
{
    let c = comma_separated(cog);
    let q = comma_separated(products);
    lemma_brackets_of_a_concatenation(mass + ",["@ + c + "],["@ + q, "]"@);
    lemma_brackets_of_a_concatenation(mass + ",["@ + c + "],["@, q);
    lemma_brackets_of_a_concatenation(mass + ",["@ + c, "],["@);
    lemma_brackets_of_a_concatenation(mass + ",["@, c);
    lemma_brackets_of_a_concatenation(mass, ",["@);
    lemma_plain_text_stays(mass);
    lemma_list_stays(cog);
    lemma_list_stays(products);
    lemma_brackets_of_the_separators();
    law_list_of_a_concatenation(seq![mass], cog);
    law_list_of_a_concatenation(seq![mass] + cog, products);
    assert(comma_separated(seq![mass]) == mass);
}

/// The separators of a payload text are commas in brackets.
proof fn lemma_brackets_of_the_separators()
    ensures
        without_brackets(",["@) == ","@,
        without_brackets("],["@) == ","@,
        without_brackets("]"@) == Seq::<char>::empty(),
{
    reveal_strlit(",");
    reveal_strlit("]");
    reveal_strlit(",[");
    reveal_strlit("],[");
    reveal_with_fuel(Seq::filter, 4);
    assert(",["@.drop_last() =~= ","@);
    assert("],["@.drop_last().drop_last() =~= "]"@);
    assert("]"@.drop_last() =~= Seq::empty());
    assert(","@.drop_last() =~= Seq::empty());
    assert(without_brackets(",["@) =~= ","@);
    assert(without_brackets("],["@) =~= ","@);
    assert(without_brackets("]"@) =~= Seq::<char>::empty());
}

/// A payload text can be read back: without its brackets, cut at its commas, it gives the mass,
/// the centre of gravity and the inertia.
pub proof fn law_payload_text_reads_back<P: Display>(p: Payload<P>, text: Seq<char>)
    requires
        shows_plainly::<P>(),
        payload_text(p, text),
    ensures
        read_back(payload_numbers(p), comma_split(without_brackets(text))),
{
    let (mass, cog, products) = choose|mass: Seq<char>, cog: Seq<char>, products: Seq<char>|
        #![trigger displays(p.mass, mass), lists(centre_of_gravity(p), cog), lists(inertia(p), products)]
        {
            &&& displays(p.mass, mass)
            &&& lists(centre_of_gravity(p), cog)
            &&& lists(inertia(p), products)
            &&& text == mass + ",["@ + cog + "],["@ + products + "]"@
        };
    let cog_texts = choose|texts: Seq<Seq<char>>| #[trigger]
        display_all(centre_of_gravity(p), texts) && cog == comma_separated(texts);
    let product_texts = choose|texts: Seq<Seq<char>>| #[trigger]
        display_all(inertia(p), texts) && products == comma_separated(texts);
    lemma_texts_are_plain(centre_of_gravity(p), cog_texts);
    lemma_texts_are_plain(inertia(p), product_texts);
    lemma_payload_text_without_brackets(mass, cog_texts, product_texts);
    let items = seq![mass] + cog_texts + product_texts;
    assert(display_all(payload_numbers(p), items));
    lemma_texts_are_plain(payload_numbers(p), items);
    law_list_gives_its_items(items);
    lemma_texts_read_back(payload_numbers(p), items);
}

/// A list of numbers has no brackets, and cut at its commas it gives the texts of the numbers.
proof fn lemma_list_without_brackets<N: Display>(numbers: Seq<N>, list: Seq<char>)
    requires
        shows_plainly::<N>(),
        numbers.len() > 0,
        lists(numbers, list),
    ensures
        without_brackets(list) == list,
        display_all(numbers, comma_split(list)),
{
    let texts = choose|texts: Seq<Seq<char>>| #[trigger]
        display_all(numbers, texts) && list == comma_separated(texts);
    lemma_texts_are_plain(numbers, texts);
    lemma_list_stays(texts);
    law_list_gives_its_items(texts);
}

/// The text has these three parts: the mass before the first bracket, the list of the centre of
/// gravity in the first brackets and the list of the inertia in the second, and no other brackets.
pub open spec fn reads_in_brackets<P: Display>(
    text: Seq<char>,
    p: Payload<P>,
    mass: Seq<char>,
    cog: Seq<char>,
    products: Seq<char>,
) -> bool {
    &&& text == mass + ",["@ + cog + "],["@ + products + "]"@
    &&& plain(mass)
    &&& displays(p.mass, mass)
    &&& without_brackets(cog) == cog
    &&& display_all(seq![p.cog_x, p.cog_y, p.cog_z], comma_split(cog))
    &&& without_brackets(products) == products
    &&& display_all(seq![p.ixx, p.iyy, p.izz, p.ixy, p.ixz, p.iyz], comma_split(products))
}

/// The brackets of a payload text can be read back: before the first comma and bracket stands the
/// mass, in the first brackets stand the three numbers of the centre of gravity and in the second
/// the six of the inertia, and there are no other brackets.
pub proof fn law_payload_brackets_read_back<P: Display>(p: Payload<P>, text: Seq<char>)
    requires
        shows_plainly::<P>(),
        payload_text(p, text),
    ensures
        exists|mass: Seq<char>, cog: Seq<char>, products: Seq<char>| #[trigger]
            reads_in_brackets(text, p, mass, cog, products),
{
    let parts = lemma_parts_of_a_payload(p, text);
    lemma_list_without_brackets(centre_of_gravity(p), parts.1);
    lemma_list_without_brackets(inertia(p), parts.2);
    assert(plain(parts.0));
    assert(reads_in_brackets(text, p, parts.0, parts.1, parts.2));
}

/// Numbers that can be read back from the same items are the same.
proof fn lemma_same_items_same_numbers<N: Display>(
    a: Seq<N>,
    b: Seq<N>,
    items: Seq<Seq<char>>,
    read: spec_fn(Seq<char>) -> N,
)
    requires
        read_back(a, items),
        read_back(b, items),
        forall|i: int| 0 <= i < a.len() ==> reads(read, #[trigger] a[i]),
        forall|i: int| 0 <= i < b.len() ==> reads(read, #[trigger] b[i]),
    ensures
        a == b,
{
    assert forall|i: int| 0 <= i < a.len() implies a[i] == b[i] by {
        assert(reads(read, a[i]));
        assert(reads(read, b[i]));
    }
    assert(a =~= b);
}

/// Two poses whose numbers can be read back have the same literal only if they are the same.
pub proof fn law_pose_text_tells_poses_apart<D: Display>(
    p: Pose<D>,
    q: Pose<D>,
    text: Seq<char>,
    read: spec_fn(Seq<char>) -> D,
)
    requires
        shows_plainly::<D>(),
        pose_text(p, text),
        pose_text(q, text),
        forall|i: int| 0 <= i < 6 ==> reads(read, #[trigger] coordinates(p)[i]),
        forall|i: int| 0 <= i < 6 ==> reads(read, #[trigger] coordinates(q)[i]),
    ensures
        p == q,
{
    law_pose_text_reads_back(p, text);
    law_pose_text_reads_back(q, text);
    let a = coordinates(p);
    let b = coordinates(q);
    lemma_same_items_same_numbers(a, b, comma_split(inside(text, 2)), read);
    assert(a[0] == b[0] && a[1] == b[1] && a[2] == b[2] && a[3] == b[3] && a[4] == b[4] && a[5]
        == b[5]);
}

/// Two arms of six joints whose positions can be read back have the same text only if their
/// positions are the same.
pub proof fn law_joint_text_tells_positions_apart<D: Display>(
    p: Seq<D>,
    q: Seq<D>,
    text: Seq<char>,
    read: spec_fn(Seq<char>) -> D,
)
    requires
        shows_plainly::<D>(),
        p.len() == 6,
        q.len() == 6,
        joint_text(p, text),
        joint_text(q, text),
        forall|i: int| 0 <= i < 6 ==> reads(read, #[trigger] p[i]),
        forall|i: int| 0 <= i < 6 ==> reads(read, #[trigger] q[i]),
    ensures
        p == q,
{
    law_joint_text_reads_back(p, text);
    law_joint_text_reads_back(q, text);
    lemma_same_items_same_numbers(p, q, comma_split(inside(text, 1)), read);
}

/// Two payloads whose numbers can be read back have the same text only if they are the same.
pub proof fn law_payload_text_tells_payloads_apart<P: Display>(
    p: Payload<P>,
    q: Payload<P>,
    text: Seq<char>,
    read: spec_fn(Seq<char>) -> P,
)
    requires
        shows_plainly::<P>(),
        payload_text(p, text),
        payload_text(q, text),
        forall|i: int| 0 <= i < 10 ==> reads(read, #[trigger] payload_numbers(p)[i]),
        forall|i: int| 0 <= i < 10 ==> reads(read, #[trigger] payload_numbers(q)[i]),
    ensures
        p == q,
{
    law_payload_text_reads_back(p, text);
    law_payload_text_reads_back(q, text);
    let a = payload_numbers(p);
    let b = payload_numbers(q);
    lemma_same_items_same_numbers(a, b, comma_split(without_brackets(text)), read);
    assert(a[0] == b[0] && a[1] == b[1] && a[2] == b[2] && a[3] == b[3] && a[4] == b[4] && a[5]
        == b[5] && a[6] == b[6] && a[7] == b[7] && a[8] == b[8] && a[9] == b[9]);
}

/// Numbers that show as one text only are listed in one way only.
pub proof fn law_list_is_determined<N: Display>(numbers: Seq<N>, a: Seq<char>, b: Seq<char>)
    requires
        shows_one_text::<N>(),
        lists(numbers, a),
        lists(numbers, b),
    ensures
        a == b,
{
    let a_texts = choose|texts: Seq<Seq<char>>| #[trigger]
        display_all(numbers, texts) && a == comma_separated(texts);
    let b_texts = choose|texts: Seq<Seq<char>>| #[trigger]
        display_all(numbers, texts) && b == comma_separated(texts);
    assert forall|i: int| 0 <= i < numbers.len() implies a_texts[i] == b_texts[i] by {
        assert(displays(numbers[i], a_texts[i]));
        assert(displays(numbers[i], b_texts[i]));
    }
    assert(a_texts =~= b_texts);
}

/// A pose whose numbers show as one text only has one literal.
pub proof fn law_pose_text_is_determined<D: Display>(p: Pose<D>, a: Seq<char>, b: Seq<char>)
    requires
        shows_one_text::<D>(),
        pose_text(p, a),
        pose_text(p, b),
    ensures
        a == b,
{
    let x = choose|list: Seq<char>| #[trigger]
        lists(coordinates(p), list) && a == "p["@ + list + "]"@;
    let y = choose|list: Seq<char>| #[trigger]
        lists(coordinates(p), list) && b == "p["@ + list + "]"@;
    law_list_is_determined(coordinates(p), x, y);
}

/// Joint positions that show as one text only have one text.
pub proof fn law_joint_text_is_determined<D: Display>(
    position: Seq<D>,
    a: Seq<char>,
    b: Seq<char>,
)
    requires
        shows_one_text::<D>(),
        joint_text(position, a),
        joint_text(position, b),
    ensures
        a == b,
{
    if position.len() == 6 {
        let x = choose|list: Seq<char>| #[trigger]
            lists(position, list) && a == "["@ + list + "]"@;
        let y = choose|list: Seq<char>| #[trigger]
            lists(position, list) && b == "["@ + list + "]"@;
        law_list_is_determined(position, x, y);
    }
}

/// A payload whose numbers show as one text only has one text.
pub proof fn law_payload_text_is_determined<P: Display>(p: Payload<P>, a: Seq<char>, b: Seq<char>)
    requires
        shows_one_text::<P>(),
        payload_text(p, a),
        payload_text(p, b),
    ensures
        a == b,
{
    let (a_mass, a_cog, a_products) = choose|mass: Seq<char>, cog: Seq<char>, products: Seq<char>|
        #![trigger displays(p.mass, mass), lists(centre_of_gravity(p), cog), lists(inertia(p), products)]
        {
            &&& displays(p.mass, mass)
            &&& lists(centre_of_gravity(p), cog)
            &&& lists(inertia(p), products)
            &&& a == mass + ",["@ + cog + "],["@ + products + "]"@
        };
    let (b_mass, b_cog, b_products) = choose|mass: Seq<char>, cog: Seq<char>, products: Seq<char>|
        #![trigger displays(p.mass, mass), lists(centre_of_gravity(p), cog), lists(inertia(p), products)]
        {
            &&& displays(p.mass, mass)
            &&& lists(centre_of_gravity(p), cog)
            &&& lists(inertia(p), products)
            &&& b == mass + ",["@ + cog + "],["@ + products + "]"@
        };
    law_list_is_determined(centre_of_gravity(p), a_cog, b_cog);
    law_list_is_determined(inertia(p), a_products, b_products);
}

/// The joint text is empty exactly where the arm has not six joints.
pub proof fn law_joint_text_tells_six_joints<D: Display>(position: Seq<D>, text: Seq<char>)
    requires
        joint_text(position, text),
    ensures
        text.len() == 0 <==> position.len() != 6,
{
    reveal_strlit("[");
}

} // verus!
