//! Key and button bindings: from the document to what the window manager runs.
use super::types::{ArgumentConfig, ButtonConfig, Config, KeyConfig};
use crate::actions::{
    function_by_name, function_named, keysym_by_name, keysym_named, ArgView, ButtonView, KeyView,
    Mods, WMArgEnum, WMButton, WMClickType, WMFunc, WMKey,
};
use crate::catalog::LayoutEnum;
use crate::command_line::{argv_of, split_command_line};
use crate::text::{lowered, str_eq, trim, trimmed, views};
use vstd::prelude::*;

verus! {

/// A modifier key, whatever name the document gives it. The order is that of
/// the canonical names.
#[derive(Debug, Clone, Copy, PartialEq, Eq, Structural)]
pub enum Modifier {
    Alt,
    CapsLock,
    Control,
    Mod2,
    Mod3,
    Mod5,
    Shift,
    Super,
}

/// The modifier that a name stands for.
pub open spec fn modifier_named(name: Seq<char>) -> Option<Modifier> {
    if name == "Mod1"@ || name == "Alt"@ {
        Some(Modifier::Alt)
    } else if name == "Mod2"@ {
        Some(Modifier::Mod2)
    } else if name == "Mod3"@ {
        Some(Modifier::Mod3)
    } else if name == "Mod4"@ || name == "Super"@ || name == "Win"@ {
        Some(Modifier::Super)
    } else if name == "Mod5"@ {
        Some(Modifier::Mod5)
    } else if name == "Control"@ || name == "Ctrl"@ {
        Some(Modifier::Control)
    } else if name == "Shift"@ {
        Some(Modifier::Shift)
    } else if name == "Lock"@ || name == "CapsLock"@ {
        Some(Modifier::CapsLock)
    } else {
        None
    }
}

/// The modifier that a name stands for.
pub fn canonical_modifier(name: &str) -> (r: Option<Modifier>)
    ensures
        r == modifier_named(name@),
{
    if str_eq(name, "Mod1") || str_eq(name, "Alt") {
        Some(Modifier::Alt)
    } else if str_eq(name, "Mod2") {
        Some(Modifier::Mod2)
    } else if str_eq(name, "Mod3") {
        Some(Modifier::Mod3)
    } else if str_eq(name, "Mod4") || str_eq(name, "Super") || str_eq(name, "Win") {
        Some(Modifier::Super)
    } else if str_eq(name, "Mod5") {
        Some(Modifier::Mod5)
    } else if str_eq(name, "Control") || str_eq(name, "Ctrl") {
        Some(Modifier::Control)
    } else if str_eq(name, "Shift") {
        Some(Modifier::Shift)
    } else if str_eq(name, "Lock") || str_eq(name, "CapsLock") {
        Some(Modifier::CapsLock)
    } else {
        None
    }
}

/// Whether one of `names` stands for `modifier`.
pub open spec fn holds(names: Seq<String>, modifier: Modifier) -> bool {
    exists|i: int| 0 <= i < names.len() && modifier_named(#[trigger] names[i]@) == Some(modifier)
}

/// The modifiers that `names` stand for; unknown names stand for none.
pub open spec fn mods_of(names: Seq<String>) -> Mods {
    Mods {
        shift: holds(names, Modifier::Shift),
        control: holds(names, Modifier::Control),
        alt: holds(names, Modifier::Alt),
        sup: holds(names, Modifier::Super),
        caps: holds(names, Modifier::CapsLock),
        mod2: holds(names, Modifier::Mod2),
        mod3: holds(names, Modifier::Mod3),
        mod5: holds(names, Modifier::Mod5),
    }
}

/// Whether one of `names` stands for `modifier`.
pub fn held(names: &[String], modifier: Modifier) -> (r: bool)
    ensures
        r == holds(names@, modifier),
{
    let mut i: usize = 0;
    while i < names.len()
        invariant
            i <= names@.len(),
            forall|k: int| 0 <= k < i ==> modifier_named(#[trigger] names@[k]@) != Some(modifier),
        decreases names@.len() - i,
    {
        if canonical_modifier(names[i].as_str()) == Some(modifier) {
            return true;
        }
        i += 1;
    }
    false
}

/// The modifiers that `names` stand for; unknown names are ignored.
pub fn parse_modifiers(names: &[String]) -> (r: Mods)
    ensures
        r == mods_of(names@),
{
    Mods {
        shift: held(names, Modifier::Shift),
        control: held(names, Modifier::Control),
        alt: held(names, Modifier::Alt),
        sup: held(names, Modifier::Super),
        caps: held(names, Modifier::CapsLock),
        mod2: held(names, Modifier::Mod2),
        mod3: held(names, Modifier::Mod3),
        mod5: held(names, Modifier::Mod5),
    }
}

/// Whether a held key repeats the action: only actions that move something
/// one step do.
pub open spec fn repeatable(function: Seq<char>) -> bool {
    ||| function == "focusstack"@
    ||| function == "loopview"@
    ||| function == "setmfact"@
    ||| function == "setcfact"@
    ||| function == "incnmaster"@
    ||| function == "movestack"@
    ||| function == "volume_adjust"@
    ||| function == "brightness_adjust"@
    ||| function == "cyclelayout"@
    ||| function == "layout_picker"@
    ||| function == "scrolling_focus_column"@
    ||| function == "scrolling_move_column"@
    ||| function == "scrolling_consume"@
    ||| function == "scrolling_expel"@
    ||| function == "scrolling_focus_window"@
}

/// Whether a held key repeats the action.
///
/// Repeat is policy attached to a binding, not inferred by platform backends.
pub fn key_function_is_repeatable(function: &str) -> (r: bool)
    ensures
        r == repeatable(function@),
{
    str_eq(function, "focusstack") || str_eq(function, "loopview") || str_eq(function, "setmfact")
        || str_eq(function, "setcfact") || str_eq(function, "incnmaster") || str_eq(
        function,
        "movestack",
    ) || str_eq(function, "volume_adjust") || str_eq(function, "brightness_adjust") || str_eq(
        function,
        "cyclelayout",
    ) || str_eq(function, "layout_picker") || str_eq(function, "scrolling_focus_column") || str_eq(
        function,
        "scrolling_move_column",
    ) || str_eq(function, "scrolling_consume") || str_eq(function, "scrolling_expel") || str_eq(
        function,
        "scrolling_focus_window",
    )
}

/// The present name of a renamed terminal.
pub open spec fn present_name(program: Seq<char>) -> Option<Seq<char>> {
    if program == "jterm1"@ {
        Some("forge"@)
    } else if program == "jterm2"@ {
        Some("anvil"@)
    } else if program == "jterm3"@ {
        Some("ember"@)
    } else if program == "jterm4"@ {
        Some("frost"@)
    } else {
        None
    }
}

fn renamed_legacy_terminal(program: &str) -> (r: Option<&'static str>)
    ensures
        match r {
            Some(name) => present_name(program@) == Some(name@),
            None => present_name(program@) is None,
        },
{
    if str_eq(program, "jterm1") {
        Some("forge")
    } else if str_eq(program, "jterm2") {
        Some("anvil")
    } else if str_eq(program, "jterm3") {
        Some("ember")
    } else if str_eq(program, "jterm4") {
        Some("frost")
    } else {
        None
    }
}

/// Where the program stands in the argument vector of an action: first for
/// `spawn`, second for `togglescratchpad` when it names one.
pub open spec fn program_index(function: Seq<char>, argv: Seq<Seq<char>>) -> Option<int> {
    if function == "spawn"@ && argv.len() > 0 {
        Some(0)
    } else if function == "togglescratchpad"@ && argv.len() > 1 {
        Some(1)
    } else {
        None
    }
}

/// An argument with a renamed terminal replaced by its present name. Nothing
/// else in the argument changes.
pub open spec fn migrated(function: Seq<char>, arg: ArgView) -> ArgView {
    match arg {
        ArgView::StringVec(argv) => match program_index(function, argv) {
            Some(i) => match present_name(argv[i]) {
                Some(name) => ArgView::StringVec(argv.update(i, name)),
                None => arg,
            },
            None => arg,
        },
        _ => arg,
    }
}

/// Replaces a renamed terminal in an argument by its present name.
pub fn migrate_legacy_terminal_argument(function: &str, arg: WMArgEnum) -> (r: WMArgEnum)
    ensures
        r@ == migrated(function@, arg@),
{
    match arg {
        WMArgEnum::StringVec(argv) => {
            let mut argv = argv;
            let index: usize = if str_eq(function, "spawn") && argv.len() > 0 {
                0
            } else if str_eq(function, "togglescratchpad") && argv.len() > 1 {
                1
            } else {
                return WMArgEnum::StringVec(argv);
            };
            proof {
                reveal_strlit("spawn");
                reveal_strlit("togglescratchpad");
                assert("spawn"@.len() != "togglescratchpad"@.len());
            }
            if let Some(name) = renamed_legacy_terminal(argv[index].as_str()) {
                let ghost before = views(argv@);
                argv.set(index, name.to_string());
                assert(views(argv@) == before.update(index as int, name@));
            }
            WMArgEnum::StringVec(argv)
        },
        _ => arg,
    }
}

/// A document argument as an action receives it: a text is a layout when one
/// goes by it, and a one-element command line otherwise.
pub open spec fn converted(arg: ArgumentConfig) -> ArgView {
    match arg {
        ArgumentConfig::Int(i) => ArgView::Int(i as int),
        ArgumentConfig::UInt(u) => ArgView::UInt(u as int),
        ArgumentConfig::Float(x) => ArgView::Float(x),
        ArgumentConfig::StringVec(v) => ArgView::StringVec(views(v@)),
        ArgumentConfig::String(s) => match LayoutEnum::named(lowered(trimmed(s@))) {
            Some(layout) => ArgView::Layout(layout),
            None => ArgView::StringVec(seq![s@]),
        },
    }
}

/// A copy of strings.
pub fn clone_strings(v: &[String]) -> (r: Vec<String>)
    ensures
        r@ == v@,
{
    let mut out: Vec<String> = Vec::new();
    let mut i: usize = 0;
    while i < v.len()
        invariant
            i <= v@.len(),
            out@ == v@.take(i as int),
        decreases v@.len() - i,
    {
        out.push(v[i].clone());
        i += 1;
    }
    assert(v@.take(v@.len() as int) == v@);
    out
}

fn convert_argument(arg: &ArgumentConfig) -> (r: WMArgEnum)
    ensures
        r@ == converted(*arg),
{
    match arg {
        ArgumentConfig::Int(i) => WMArgEnum::Int(*i),
        ArgumentConfig::UInt(u) => WMArgEnum::UInt(*u),
        ArgumentConfig::Float(x) => WMArgEnum::Float(*x),
        ArgumentConfig::StringVec(v) => WMArgEnum::StringVec(clone_strings(v.as_slice())),
        ArgumentConfig::String(s) => match LayoutEnum::from_name(s.as_str()) {
            Some(layout) => WMArgEnum::Layout(layout),
            None => {
                let argv: Vec<String> = vec![s.clone()];
                assert(views(argv@) == seq![s@]);
                WMArgEnum::StringVec(argv)
            },
        },
    }
}

/// Whether an argument vector names a program.
pub open spec fn names_program(argv: Seq<Seq<char>>) -> bool {
    argv.len() > 0 && trimmed(argv[0]).len() > 0
}

/// The command line of a `spawn` argument.
pub open spec fn spawn_argv(arg: ArgumentConfig) -> Option<Seq<Seq<char>>> {
    let argv = match arg {
        ArgumentConfig::String(s) => argv_of(s@),
        ArgumentConfig::StringVec(v) => Some(views(v@)),
        _ => None,
    };
    match argv {
        Some(argv) => if names_program(argv) {
            Some(argv)
        } else {
            None
        },
        None => None,
    }
}

/// The argument of a binding, or `None` when a `spawn` has no command.
pub open spec fn binding_argument(function: Seq<char>, arg: ArgumentConfig) -> Option<ArgView> {
    if function == "spawn"@ {
        match spawn_argv(arg) {
            Some(argv) => Some(migrated(function, ArgView::StringVec(argv))),
            None => None,
        }
    } else {
        Some(migrated(function, converted(arg)))
    }
}

/// The command line of a `spawn` argument.
pub fn spawn_command(arg: &ArgumentConfig) -> (r: Option<Vec<String>>)
    ensures
        match r {
            Some(v) => spawn_argv(*arg) == Some(views(v@)),
            None => spawn_argv(*arg) is None,
        },
{
    let command: Vec<String> = match arg {
        ArgumentConfig::String(s) => match split_command_line(s.as_str()) {
            Ok(argv) => argv,
            Err(_) => return None,
        },
        ArgumentConfig::StringVec(v) => clone_strings(v.as_slice()),
        _ => return None,
    };
    if command.len() == 0 || trim(command[0].as_str()).as_str().is_empty() {
        return None;
    }
    Some(command)
}

/// The argument of a binding.
pub fn convert_binding_argument(function: &str, arg: &ArgumentConfig) -> (r: Option<WMArgEnum>)
    ensures
        match r {
            Some(a) => binding_argument(function@, *arg) == Some(a@),
            None => binding_argument(function@, *arg) is None,
        },
{
    let converted = if str_eq(function, "spawn") {
        match spawn_command(arg) {
            Some(command) => WMArgEnum::StringVec(command),
            None => return None,
        }
    } else {
        convert_argument(arg)
    };
    Some(migrate_legacy_terminal_argument(function, converted))
}

/// A key binding with the given modifiers, or `None` when its key, action or
/// command is not known.
pub open spec fn key_binding(
    mods: Mods,
    key: Seq<char>,
    function: Seq<char>,
    arg: ArgumentConfig,
) -> Option<KeyView> {
    match (keysym_named(key), function_named(function), binding_argument(function, arg)) {
        (Some(key_sym), Some(func), Some(arg)) => Some(
            KeyView { mask: mods, key_sym, func, arg, repeatable: repeatable(function) },
        ),
        _ => None,
    }
}

/// A key binding with the given modifiers.
pub fn compile_key(mods: Mods, key: &str, function: &str, arg: &ArgumentConfig) -> (r: Option<
    WMKey,
>)
    ensures
        match r {
            Some(k) => key_binding(mods, key@, function@, *arg) == Some(k@),
            None => key_binding(mods, key@, function@, *arg) is None,
        },
{
    let key_sym: u32 = match keysym_by_name(key) {
        Some(k) => k,
        None => return None,
    };
    let func = match function_by_name(function) {
        Some(f) => f,
        None => return None,
    };
    let arg = match convert_binding_argument(function, arg) {
        Some(a) => a,
        None => return None,
    };
    Some(
        WMKey {
            mask: mods,
            key_sym,
            func,
            arg,
            repeatable: key_function_is_repeatable(function),
        },
    )
}

/// The binding a document entry states.
pub open spec fn configured_key(k: KeyConfig) -> Option<KeyView> {
    key_binding(mods_of(k.modifier@), k.key@, k.function@, k.argument)
}

/// What a click landed on, by its name in the document.
pub open spec fn click_named(name: Seq<char>) -> Option<WMClickType> {
    if name == "ClkClientWin"@ {
        Some(WMClickType::ClickClientWin)
    } else if name == "ClkRootWin"@ {
        Some(WMClickType::ClickRootWin)
    } else {
        None
    }
}

/// What a click landed on, by its name in the document.
pub fn parse_click_type(name: &str) -> (r: Option<WMClickType>)
    ensures
        r == click_named(name@),
{
    if str_eq(name, "ClkClientWin") {
        Some(WMClickType::ClickClientWin)
    } else if str_eq(name, "ClkRootWin") {
        Some(WMClickType::ClickRootWin)
    } else {
        None
    }
}

/// The mouse binding a document entry states.
pub open spec fn configured_button(b: ButtonConfig) -> Option<ButtonView> {
    match (
        click_named(b.click_type@),
        function_named(b.function@),
        binding_argument(b.function@, b.argument),
    ) {
        (Some(click_type), Some(func), Some(arg)) => Some(
            ButtonView { click_type, mask: mods_of(b.modifier@), button: b.button, func, arg },
        ),
        _ => None,
    }
}

/// The four bindings of a numbered tag: view, toggle its view, move to it,
/// toggle it. Only the first nine tags have a digit key.
pub open spec fn tag_bindings(modkey: Mods, tag: int) -> Seq<KeyView> {
    if 0 <= tag < 9 {
        let key = KeyView {
            mask: modkey,
            key_sym: (0x31 + tag) as u32,
            func: WMFunc::View,
            arg: ArgView::UInt((1u32 << (tag as u32)) as int),
            repeatable: false,
        };
        seq![
            key,
            KeyView { mask: Mods { control: true, ..modkey }, func: WMFunc::Toggleview, ..key },
            KeyView { mask: Mods { shift: true, ..modkey }, func: WMFunc::Tag, ..key },
            KeyView {
                mask: Mods { control: true, shift: true, ..modkey },
                func: WMFunc::Toggletag,
                ..key
            },
        ]
    } else {
        Seq::empty()
    }
}

/// The views of key bindings.
pub open spec fn key_views(keys: Seq<WMKey>) -> Seq<KeyView> {
    keys.map_values(|k: WMKey| k@)
}

/// The views of button bindings.
pub open spec fn button_views(buttons: Seq<WMButton>) -> Seq<ButtonView> {
    buttons.map_values(|b: WMButton| b@)
}

fn push_key(keys: &mut Vec<WMKey>, key: WMKey)
    ensures
        key_views(final(keys)@) == key_views(old(keys)@).push(key@),
{
    keys.push(key);
    assert(key_views(keys@) == key_views(old(keys)@).push(key@));
}

/// Whether a key list has a binding on this chord.
pub open spec fn chord_taken(keys: Seq<KeyView>, mask: Mods, key_sym: u32) -> bool {
    exists|i: int|
        0 <= i < keys.len() && (#[trigger] keys[i]).mask == mask && keys[i].key_sym == key_sym
}

fn is_chord_taken(keys: &Vec<WMKey>, mask: Mods, key_sym: u32) -> (r: bool)
    ensures
        r == chord_taken(key_views(keys@), mask, key_sym),
{
    let mut i: usize = 0;
    while i < keys.len()
        invariant
            i <= keys@.len(),
            forall|k: int|
                0 <= k < i ==> !((#[trigger] key_views(keys@)[k]).mask == mask && key_views(
                    keys@,
                )[k].key_sym == key_sym),
        decreases keys@.len() - i,
    {
        assert(key_views(keys@)[i as int] == keys@[i as int]@);
        if keys[i].mask == mask && keys[i].key_sym == key_sym {
            return true;
        }
        i += 1;
    }
    false
}

/// Whether a document entry is on this chord.
pub open spec fn configured_on(keys: Seq<KeyConfig>, mods: Mods, key: Seq<char>) -> bool {
    exists|i: int|
        0 <= i < keys.len() && (#[trigger] keys[i]).key@ == key && mods_of(keys[i].modifier@)
            == mods
}

fn is_configured_on(keys: &Vec<KeyConfig>, mods: Mods, key: &str) -> (r: bool)
    ensures
        r == configured_on(keys@, mods, key@),
{
    let mut i: usize = 0;
    while i < keys.len()
        invariant
            i <= keys@.len(),
            forall|k: int|
                0 <= k < i ==> !((#[trigger] keys@[k]).key@ == key@ && mods_of(keys@[k].modifier@)
                    == mods),
        decreases keys@.len() - i,
    {
        if str_eq(keys[i].key.as_str(), key) && parse_modifiers(keys[i].modifier.as_slice())
            == mods {
            return true;
        }
        i += 1;
    }
    false
}

/// Whether a document entry binds this action.
pub open spec fn binds_action(keys: Seq<KeyConfig>, function: Seq<char>) -> bool {
    exists|i: int| 0 <= i < keys.len() && (#[trigger] keys[i]).function@ == function
}

fn does_bind_action(keys: &Vec<KeyConfig>, function: &str) -> (r: bool)
    ensures
        r == binds_action(keys@, function@),
{
    let mut i: usize = 0;
    while i < keys.len()
        invariant
            i <= keys@.len(),
            forall|k: int| 0 <= k < i ==> (#[trigger] keys@[k]).function@ != function@,
        decreases keys@.len() - i,
    {
        if str_eq(keys[i].function.as_str(), function) {
            return true;
        }
        i += 1;
    }
    false
}

/// Whether an argument is a command line that begins with `calc`.
pub open spec fn starts_calculator(arg: ArgumentConfig) -> bool {
    match arg {
        ArgumentConfig::StringVec(v) => v@.len() > 0 && v@[0]@ == "calc"@,
        _ => false,
    }
}

/// Whether an entry is one of the two shortcuts that older templates put on a
/// chord already in use, while its new chord is free.
pub open spec fn remapped(keys: Seq<KeyConfig>, k: KeyConfig) -> bool {
    &&& mods_of(k.modifier@) == Mods::alt_shift()
    &&& {
        ||| k.function@ == "togglescratchpad"@ && k.key@ == "c"@ && starts_calculator(k.argument)
            && !configured_on(keys, Mods::alt_control(), "c"@)
        ||| k.function@ == "togglesticky"@ && k.key@ == "s"@ && !configured_on(
            keys,
            Mods::alt_control(),
            "s"@,
        )
    }
}

/// The binding an entry takes effect as.
pub open spec fn effective_key(keys: Seq<KeyConfig>, k: KeyConfig) -> Option<KeyView> {
    if remapped(keys, k) {
        key_binding(Mods::alt_control(), k.key@, k.function@, k.argument)
    } else {
        configured_key(k)
    }
}

/// The bindings of the first `n` entries, without those that do not compile.
pub open spec fn effective_keys(keys: Seq<KeyConfig>, n: int) -> Seq<KeyView>
    decreases n,
{
    if n <= 0 {
        Seq::empty()
    } else {
        match effective_key(keys, keys[n - 1]) {
            Some(k) => effective_keys(keys, n - 1).push(k),
            None => effective_keys(keys, n - 1),
        }
    }
}

/// A built-in binding on Alt+Control that the document neither states nor
/// leaves no room for.
pub open spec fn with_fallback(
    keys: Seq<KeyView>,
    configured: Seq<KeyConfig>,
    function: Seq<char>,
    func: WMFunc,
    key_sym: u32,
) -> Seq<KeyView> {
    if binds_action(configured, function) || chord_taken(keys, Mods::alt_control(), key_sym) {
        keys
    } else {
        keys.push(
            KeyView {
                mask: Mods::alt_control(),
                key_sym,
                func,
                arg: ArgView::Int(0),
                repeatable: false,
            },
        )
    }
}

/// The bindings of the first `n` tags.
pub open spec fn tag_keys(modkey: Mods, n: int) -> Seq<KeyView>
    decreases n,
{
    if n <= 0 {
        Seq::empty()
    } else {
        tag_keys(modkey, n - 1) + tag_bindings(modkey, n - 1)
    }
}

/// The number of tags in use: what the document states, within what a 32-bit
/// tag mask holds.
pub open spec fn tag_count(stated: usize) -> int {
    if stated < 1 {
        1
    } else if stated > 31 {
        31
    } else {
        stated as int
    }
}

fn add_fallback(
    keys: &mut Vec<WMKey>,
    configured: &Vec<KeyConfig>,
    function: &str,
    func: WMFunc,
    key_sym: u32,
)
    ensures
        key_views(final(keys)@) == with_fallback(
            key_views(old(keys)@),
            configured@,
            function@,
            func,
            key_sym,
        ),
{
    if does_bind_action(configured, function) {
        return;
    }
    let mask = Mods::empty().with_alt().with_control();
    if is_chord_taken(keys, mask, key_sym) {
        return;
    }
    push_key(keys, WMKey { mask, key_sym, func, arg: WMArgEnum::Int(0), repeatable: false });
}

fn push_tag_keys(keys: &mut Vec<WMKey>, modkey: Mods, tag: usize)
    ensures
        key_views(final(keys)@) == key_views(old(keys)@) + tag_bindings(modkey, tag as int),
{
    let ghost before = key_views(keys@);
    if tag >= 9 {
        assert(before + Seq::<KeyView>::empty() == before);
        return;
    }
    let key_sym: u32 = 0x31 + tag as u32;
    let bit: u32 = 1u32 << (tag as u32);
    push_key(
        keys,
        WMKey {
            mask: modkey,
            key_sym,
            func: WMFunc::View,
            arg: WMArgEnum::UInt(bit),
            repeatable: false,
        },
    );
    push_key(
        keys,
        WMKey {
            mask: modkey.with_control(),
            key_sym,
            func: WMFunc::Toggleview,
            arg: WMArgEnum::UInt(bit),
            repeatable: false,
        },
    );
    push_key(
        keys,
        WMKey {
            mask: modkey.with_shift(),
            key_sym,
            func: WMFunc::Tag,
            arg: WMArgEnum::UInt(bit),
            repeatable: false,
        },
    );
    push_key(
        keys,
        WMKey {
            mask: modkey.with_control().with_shift(),
            key_sym,
            func: WMFunc::Toggletag,
            arg: WMArgEnum::UInt(bit),
            repeatable: false,
        },
    );
    assert(key_views(keys@) == before + tag_bindings(modkey, tag as int));
}

impl Config {
    /// Every key binding: the document's own entries, the two built-in actions
    /// that older documents lack, and the tag keys.
    pub open spec fn all_keys(self) -> Seq<KeyView> {
        let configured = self.inner.keybindings.keys@;
        let own = effective_keys(configured, configured.len() as int);
        let recorder = with_fallback(
            own,
            configured,
            "toggle_audio_recording"@,
            WMFunc::ToggleAudioRecording,
            0x6d,
        );
        let monitors = with_fallback(
            recorder,
            configured,
            "monitor_layout"@,
            WMFunc::MonitorLayout,
            0x6f,
        );
        monitors + tag_keys(
            mods_of(seq![self.inner.keybindings.modkey]),
            tag_count(self.inner.layout.tags_length),
        )
    }

    /// The X11 key symbol a key name stands for.
    pub fn parse_keysym(&self, key: &str) -> (r: Option<u32>)
        ensures
            r == keysym_named(key@),
    {
        keysym_by_name(key)
    }

    /// The action a binding names.
    pub fn parse_function(&self, name: &str) -> (r: Option<WMFunc>)
        ensures
            r == function_named(name@),
    {
        function_by_name(name)
    }

    /// The binding a document entry states.
    pub fn convert_key_config(&self, k: &KeyConfig) -> (r: Option<WMKey>)
        ensures
            match r {
                Some(key) => configured_key(*k) == Some(key@),
                None => configured_key(*k) is None,
            },
    {
        compile_key(
            parse_modifiers(k.modifier.as_slice()),
            k.key.as_str(),
            k.function.as_str(),
            &k.argument,
        )
    }

    /// The mouse binding a document entry states.
    pub fn convert_button_config(&self, b: &ButtonConfig) -> (r: Option<WMButton>)
        ensures
            match r {
                Some(button) => configured_button(*b) == Some(button@),
                None => configured_button(*b) is None,
            },
    {
        let click_type = match parse_click_type(b.click_type.as_str()) {
            Some(c) => c,
            None => return None,
        };
        let func = match function_by_name(b.function.as_str()) {
            Some(f) => f,
            None => return None,
        };
        let arg = match convert_binding_argument(b.function.as_str(), &b.argument) {
            Some(a) => a,
            None => return None,
        };
        Some(
            WMButton {
                click_type,
                mask: parse_modifiers(b.modifier.as_slice()),
                button: b.button,
                func,
                arg,
            },
        )
    }

    fn effective(&self, k: &KeyConfig, calculator_free: bool, sticky_free: bool) -> (r: Option<
        WMKey,
    >)
        requires
            calculator_free == !configured_on(
                self.inner.keybindings.keys@,
                Mods::alt_control(),
                "c"@,
            ),
            sticky_free == !configured_on(self.inner.keybindings.keys@, Mods::alt_control(), "s"@),
        ensures
            match r {
                Some(key) => effective_key(self.inner.keybindings.keys@, *k) == Some(key@),
                None => effective_key(self.inner.keybindings.keys@, *k) is None,
            },
    {
        let mods = parse_modifiers(k.modifier.as_slice());
        let legacy = mods == Mods::empty().with_alt().with_shift();
        let calculator = match &k.argument {
            ArgumentConfig::StringVec(v) => v.len() > 0 && str_eq(v[0].as_str(), "calc"),
            _ => false,
        };
        let function = k.function.as_str();
        let key = k.key.as_str();
        let moved = legacy && ((calculator_free && str_eq(function, "togglescratchpad") && str_eq(
            key,
            "c",
        ) && calculator) || (sticky_free && str_eq(function, "togglesticky") && str_eq(key, "s")));
        let mods = if moved {
            Mods::empty().with_alt().with_control()
        } else {
            mods
        };
        compile_key(mods, key, function, &k.argument)
    }

    /// Every key binding: the document's own entries, the two built-in actions
    /// that older documents lack, and the tag keys.
    pub fn get_keys(&self) -> (r: Vec<WMKey>)
        ensures
            key_views(r@) == self.all_keys(),
    {
        let configured = &self.inner.keybindings.keys;
        let alt_control = Mods::empty().with_alt().with_control();
        let calculator_free = !is_configured_on(configured, alt_control, "c");
        let sticky_free = !is_configured_on(configured, alt_control, "s");
        let mut keys: Vec<WMKey> = Vec::new();
        assert(key_views(keys@) == Seq::<KeyView>::empty());
        let mut i: usize = 0;
        while i < configured.len()
            invariant
                configured@ == self.inner.keybindings.keys@,
                calculator_free == !configured_on(configured@, Mods::alt_control(), "c"@),
                sticky_free == !configured_on(configured@, Mods::alt_control(), "s"@),
                i <= configured@.len(),
                key_views(keys@) == effective_keys(configured@, i as int),
            decreases configured@.len() - i,
        {
            if let Some(key) = self.effective(&configured[i], calculator_free, sticky_free) {
                push_key(&mut keys, key);
            }
            i += 1;
        }
        add_fallback(
            &mut keys,
            configured,
            "toggle_audio_recording",
            WMFunc::ToggleAudioRecording,
            0x6d,
        );
        add_fallback(&mut keys, configured, "monitor_layout", WMFunc::MonitorLayout, 0x6f);
        let ghost own = key_views(keys@);
        let modkey_names: Vec<String> = vec![self.inner.keybindings.modkey.clone()];
        assert(modkey_names@ == seq![self.inner.keybindings.modkey]);
        let modkey = parse_modifiers(modkey_names.as_slice());
        let count: usize = self.tags_length();
        let mut tag: usize = 0;
        assert(own + tag_keys(modkey, 0) == own);
        while tag < count
            invariant
                tag <= count,
                key_views(keys@) == own + tag_keys(modkey, tag as int),
            decreases count - tag,
        {
            push_tag_keys(&mut keys, modkey, tag);
            assert(key_views(keys@) == own + tag_keys(modkey, tag + 1));
            tag += 1;
        }
        keys
    }

    /// The number of tags in use. Tag masks are built with `1 << tag`, so a
    /// count outside 1 to 31 is brought into that range.
    pub fn tags_length(&self) -> (r: usize)
        ensures
            r == tag_count(self.inner.layout.tags_length),
    {
        let n: usize = self.inner.layout.tags_length;
        if n < 1 {
            1
        } else if n > 31 {
            31
        } else {
            n
        }
    }
}

/// The document's own bindings come first, and a built-in action that an older
/// document lacks is only put on a chord that none of them is on.
pub proof fn own_bindings_are_not_overridden(config: Config)
    ensures
        ({
            let configured = config.inner.keybindings.keys@;
            let own = effective_keys(configured, configured.len() as int);
            let tags = tag_keys(
                mods_of(seq![config.inner.keybindings.modkey]),
                tag_count(config.inner.layout.tags_length),
            );
            let all = config.all_keys();
            &&& own == all.take(own.len() as int)
            &&& tags == all.skip(all.len() - tags.len())
            &&& forall|i: int|
                own.len() <= i < all.len() - tags.len() ==> !chord_taken(
                    own,
                    (#[trigger] all[i]).mask,
                    all[i].key_sym,
                )
        }),
{
    let configured = config.inner.keybindings.keys@;
    let own = effective_keys(configured, configured.len() as int);
    let recorder = with_fallback(
        own,
        configured,
        "toggle_audio_recording"@,
        WMFunc::ToggleAudioRecording,
        0x6d,
    );
    let monitors = with_fallback(
        recorder,
        configured,
        "monitor_layout"@,
        WMFunc::MonitorLayout,
        0x6f,
    );
    let tags = tag_keys(
        mods_of(seq![config.inner.keybindings.modkey]),
        tag_count(config.inner.layout.tags_length),
    );
    let all = config.all_keys();
    assert(all == monitors + tags);
    assert(own =~= all.take(own.len() as int));
    assert(tags =~= all.skip(all.len() - tags.len()));
    assert(monitors.len() > recorder.len() ==> !chord_taken(recorder, Mods::alt_control(), 0x6f));
    assert(chord_taken(own, Mods::alt_control(), 0x6f) ==> chord_taken(
        recorder,
        Mods::alt_control(),
        0x6f,
    )) by {
        if chord_taken(own, Mods::alt_control(), 0x6f) {
            let k = choose|k: int|
                0 <= k < own.len() && (#[trigger] own[k]).mask == Mods::alt_control()
                    && own[k].key_sym == 0x6f;
            assert(recorder[k] == own[k]);
        }
    }
}

} // verus!
