//! The character → symbol translation mapping: international Morse for
//! letters, digits and punctuation, and Wabun code for kana.
//!
//! A symbol string is read by the sequencer one character at a time:
//! `.` and `-` are tone elements, a space inside a symbol separates the
//! parts of a composite (voiced-kana) sign, and `<` / `>` open and
//! close a gap-free group.  The mapping is immutable: it is defined by
//! [`spec_symbol`], and [`TranslationTable`] witnesses its one-time
//! construction at engine start.

use vstd::prelude::*;

verus! {

/// The symbol string of `c`, or `None` for a character the engine
/// skips.
pub open spec fn spec_symbol(c: char) -> Option<Seq<char>> {
    match c {
        ' ' => Some(" "@),
        // Latin letters
        'A' | 'a' => Some(".-"@),
        'B' | 'b' => Some("-..."@),
        'C' | 'c' => Some("-.-."@),
        'D' | 'd' => Some("-.."@),
        'E' | 'e' => Some("."@),
        'F' | 'f' => Some("..-."@),
        'G' | 'g' => Some("--."@),
        'H' | 'h' => Some("...."@),
        'I' | 'i' => Some(".."@),
        'J' | 'j' => Some(".---"@),
        'K' | 'k' => Some("-.-"@),
        'L' | 'l' => Some(".-.."@),
        'M' | 'm' => Some("--"@),
        'N' | 'n' => Some("-."@),
        'O' | 'o' => Some("---"@),
        'P' | 'p' => Some(".--."@),
        'Q' | 'q' => Some("--.-"@),
        'R' | 'r' => Some(".-."@),
        'S' | 's' => Some("..."@),
        'T' | 't' => Some("-"@),
        'U' | 'u' => Some("..-"@),
        'V' | 'v' => Some("...-"@),
        'W' | 'w' => Some(".--"@),
        'X' | 'x' => Some("-..-"@),
        'Y' | 'y' => Some("-.--"@),
        'Z' | 'z' => Some("--.."@),
        // digits
        '1' => Some(".----"@),
        '2' => Some("..---"@),
        '3' => Some("...--"@),
        '4' => Some("....-"@),
        '5' => Some("....."@),
        '6' => Some("-...."@),
        '7' => Some("--..."@),
        '8' => Some("---.."@),
        '9' => Some("----."@),
        '0' => Some("-----"@),
        // punctuation
        '.' => Some(".-.-.-"@),
        ',' => Some("--..--"@),
        '?' => Some("..--.."@),
        '=' => Some("-...-"@),
        '-' => Some("-....-"@),
        ':' => Some("---..."@),
        '\'' => Some(".----."@),
        '/' => Some("-..-."@),
        '+' => Some(".-.-."@),
        '(' => Some("-.--."@),
        ')' => Some("-.--.-"@),
        '@' => Some(".--.-."@),
        '"' => Some(".-..-."@),
        '!' => Some("..--."@),
        '$' => Some("...-..-"@),
        '`' => Some(".-----."@),
        '&' => Some(". ..."@),
        ';' => Some("-.-.-."@),
        '«' => Some(".-..-."@),
        '»' => Some(".-..-."@),
        // kana, voiceless
        'イ' | 'い' => Some(".-"@),
        'ロ' | 'ろ' => Some(".-.-"@),
        'ハ' | 'は' => Some("-..."@),
        'ニ' | 'に' => Some("-.-."@),
        'ホ' | 'ほ' => Some("-.."@),
        'ヘ' | 'へ' => Some("."@),
        'ト' | 'と' => Some("..-.."@),
        'チ' | 'ち' => Some("..-."@),
        'リ' | 'り' => Some("--."@),
        'ヌ' | 'ぬ' => Some("...."@),
        'ル' | 'る' => Some("-.--."@),
        'ヲ' | 'を' => Some(".---"@),
        'ワ' | 'わ' => Some("-.-"@),
        'カ' | 'か' => Some(".-.."@),
        'ヨ' | 'よ' | 'ョ' | 'ょ' => Some("--"@),
        'タ' | 'た' => Some("-."@),
        'レ' | 'れ' => Some("---"@),
        'ソ' | 'そ' => Some("---."@),
        'ツ' | 'つ' | 'ッ' | 'っ' => Some(".--."@),
        'ネ' | 'ね' => Some("--.-"@),
        'ナ' | 'な' => Some(".-."@),
        'ラ' | 'ら' => Some("..."@),
        'ム' | 'む' => Some("-"@),
        'ウ' | 'う' => Some("..-"@),
        'ヰ' | 'ゐ' => Some(".-..-"@),
        'ノ' | 'の' => Some("..--"@),
        'オ' | 'お' => Some(".-..."@),
        'ク' | 'く' => Some("...-"@),
        'ヤ' | 'や' | 'ャ' | 'ゃ' => Some(".--"@),
        'マ' | 'ま' => Some("-..-"@),
        'ケ' | 'け' => Some("-.--"@),
        'フ' | 'ふ' => Some("--.."@),
        'コ' | 'こ' => Some("----"@),
        'エ' | 'え' => Some("-.---"@),
        'テ' | 'て' => Some(".-.--"@),
        'ア' | 'あ' => Some("--.--"@),
        'サ' | 'さ' => Some("-.-.-"@),
        'キ' | 'き' => Some("-.-.."@),
        'ユ' | 'ゆ' | 'ュ' | 'ゅ' => Some("-..--"@),
        'メ' | 'め' => Some("-...-"@),
        'ミ' | 'み' => Some("..-.-"@),
        'シ' | 'し' => Some("--.-."@),
        'ヱ' | 'ゑ' => Some(".--.."@),
        'ヒ' | 'ひ' => Some("--..-"@),
        'モ' | 'も' => Some("-..-."@),
        'セ' | 'せ' => Some(".---."@),
        'ス' | 'す' => Some("---.-"@),
        'ン' | 'ん' => Some(".-.-."@),
        // kana, voiced
        '゛' => Some(".."@),
        'ガ' | 'が' => Some(".-.. .."@),
        'ギ' | 'ぎ' => Some("-.-.. .."@),
        'グ' | 'ぐ' => Some("...- .."@),
        'ゲ' | 'げ' => Some("-.-- .."@),
        'ゴ' | 'ご' => Some("---- .."@),
        'ザ' | 'ざ' => Some("-.-.- .."@),
        'ジ' | 'じ' => Some("--.-. .."@),
        'ズ' | 'ず' => Some("---.- .."@),
        'ゼ' | 'ぜ' => Some(".---. .."@),
        'ゾ' | 'ぞ' => Some("---. .."@),
        'ダ' | 'だ' => Some("-. .."@),
        'ヂ' | 'ぢ' => Some("..-. .."@),
        'ヅ' | 'づ' => Some(".--. .."@),
        'デ' | 'で' => Some(".-.-- .."@),
        'ド' | 'ど' => Some("..-.. .."@),
        'バ' | 'ば' => Some("-... .."@),
        'ビ' | 'び' => Some("--..- .."@),
        'ブ' | 'ぶ' => Some("--.. .."@),
        'ベ' | 'べ' => Some(". .."@),
        'ボ' | 'ぼ' => Some("-.. .."@),
        // kana, semi-voiced
        '゜' => Some("..--."@),
        'パ' | 'ぱ' => Some("-... ..--."@),
        'ピ' | 'ぴ' => Some("--..- ..--."@),
        'プ' | 'ぷ' => Some("--.. ..--."@),
        'ペ' | 'ぺ' => Some(". ..--."@),
        'ポ' | 'ぽ' => Some("-.. ..--."@),
        // kana punctuation
        '－' | 'ー' => Some(".--.-"@),
        '（' => Some("-.--.-"@),
        '）' => Some(".-..-."@),
        '、' => Some(".-.-.-"@),
        '」' => Some(".-.-.."@),
        // grouping brackets
        '<' => Some("<"@),
        '>' => Some(">"@),
        _ => None,
    }
}

/// The full mapping as a map from character to symbol string.
pub open spec fn spec_translation_map() -> Map<char, Seq<char>> {
    Map::new(|c: char| spec_symbol(c) is Some, |c: char| spec_symbol(c).unwrap())
}

/// Witness of the one-time construction of the immutable translation
/// mapping; its view is the mapping itself, and [`TranslationTable::lookup`]
/// reads it.
#[derive(Clone, Copy)]
pub struct TranslationTable {}

impl View for TranslationTable {
    type V = Map<char, Seq<char>>;

    open spec fn view(&self) -> Map<char, Seq<char>> {
        spec_translation_map()
    }
}

impl TranslationTable {
    /// The symbol string of `c`, or `None` for a character the engine
    /// skips.
    pub fn lookup(&self, c: char) -> (r: Option<&'static str>)
        ensures
            r is Some <==> spec_symbol(c) is Some,
            r matches Some(t) ==> spec_symbol(c) == Some(t@),
    {
        match c {
            ' ' => Some(" "),
            // Latin letters
            'A' | 'a' => Some(".-"),
            'B' | 'b' => Some("-..."),
            'C' | 'c' => Some("-.-."),
            'D' | 'd' => Some("-.."),
            'E' | 'e' => Some("."),
            'F' | 'f' => Some("..-."),
            'G' | 'g' => Some("--."),
            'H' | 'h' => Some("...."),
            'I' | 'i' => Some(".."),
            'J' | 'j' => Some(".---"),
            'K' | 'k' => Some("-.-"),
            'L' | 'l' => Some(".-.."),
            'M' | 'm' => Some("--"),
            'N' | 'n' => Some("-."),
            'O' | 'o' => Some("---"),
            'P' | 'p' => Some(".--."),
            'Q' | 'q' => Some("--.-"),
            'R' | 'r' => Some(".-."),
            'S' | 's' => Some("..."),
            'T' | 't' => Some("-"),
            'U' | 'u' => Some("..-"),
            'V' | 'v' => Some("...-"),
            'W' | 'w' => Some(".--"),
            'X' | 'x' => Some("-..-"),
            'Y' | 'y' => Some("-.--"),
            'Z' | 'z' => Some("--.."),
            // digits
            '1' => Some(".----"),
            '2' => Some("..---"),
            '3' => Some("...--"),
            '4' => Some("....-"),
            '5' => Some("....."),
            '6' => Some("-...."),
            '7' => Some("--..."),
            '8' => Some("---.."),
            '9' => Some("----."),
            '0' => Some("-----"),
            // punctuation
            '.' => Some(".-.-.-"),
            ',' => Some("--..--"),
            '?' => Some("..--.."),
            '=' => Some("-...-"),
            '-' => Some("-....-"),
            ':' => Some("---..."),
            '\'' => Some(".----."),
            '/' => Some("-..-."),
            '+' => Some(".-.-."),
            '(' => Some("-.--."),
            ')' => Some("-.--.-"),
            '@' => Some(".--.-."),
            '"' => Some(".-..-."),
            '!' => Some("..--."),
            '$' => Some("...-..-"),
            '`' => Some(".-----."),
            '&' => Some(". ..."),
            ';' => Some("-.-.-."),
            '«' => Some(".-..-."),
            '»' => Some(".-..-."),
            // kana, voiceless
            'イ' | 'い' => Some(".-"),
            'ロ' | 'ろ' => Some(".-.-"),
            'ハ' | 'は' => Some("-..."),
            'ニ' | 'に' => Some("-.-."),
            'ホ' | 'ほ' => Some("-.."),
            'ヘ' | 'へ' => Some("."),
            'ト' | 'と' => Some("..-.."),
            'チ' | 'ち' => Some("..-."),
            'リ' | 'り' => Some("--."),
            'ヌ' | 'ぬ' => Some("...."),
            'ル' | 'る' => Some("-.--."),
            'ヲ' | 'を' => Some(".---"),
            'ワ' | 'わ' => Some("-.-"),
            'カ' | 'か' => Some(".-.."),
            'ヨ' | 'よ' | 'ョ' | 'ょ' => Some("--"),
            'タ' | 'た' => Some("-."),
            'レ' | 'れ' => Some("---"),
            'ソ' | 'そ' => Some("---."),
            'ツ' | 'つ' | 'ッ' | 'っ' => Some(".--."),
            'ネ' | 'ね' => Some("--.-"),
            'ナ' | 'な' => Some(".-."),
            'ラ' | 'ら' => Some("..."),
            'ム' | 'む' => Some("-"),
            'ウ' | 'う' => Some("..-"),
            'ヰ' | 'ゐ' => Some(".-..-"),
            'ノ' | 'の' => Some("..--"),
            'オ' | 'お' => Some(".-..."),
            'ク' | 'く' => Some("...-"),
            'ヤ' | 'や' | 'ャ' | 'ゃ' => Some(".--"),
            'マ' | 'ま' => Some("-..-"),
            'ケ' | 'け' => Some("-.--"),
            'フ' | 'ふ' => Some("--.."),
            'コ' | 'こ' => Some("----"),
            'エ' | 'え' => Some("-.---"),
            'テ' | 'て' => Some(".-.--"),
            'ア' | 'あ' => Some("--.--"),
            'サ' | 'さ' => Some("-.-.-"),
            'キ' | 'き' => Some("-.-.."),
            'ユ' | 'ゆ' | 'ュ' | 'ゅ' => Some("-..--"),
            'メ' | 'め' => Some("-...-"),
            'ミ' | 'み' => Some("..-.-"),
            'シ' | 'し' => Some("--.-."),
            'ヱ' | 'ゑ' => Some(".--.."),
            'ヒ' | 'ひ' => Some("--..-"),
            'モ' | 'も' => Some("-..-."),
            'セ' | 'せ' => Some(".---."),
            'ス' | 'す' => Some("---.-"),
            'ン' | 'ん' => Some(".-.-."),
            // kana, voiced
            '゛' => Some(".."),
            'ガ' | 'が' => Some(".-.. .."),
            'ギ' | 'ぎ' => Some("-.-.. .."),
            'グ' | 'ぐ' => Some("...- .."),
            'ゲ' | 'げ' => Some("-.-- .."),
            'ゴ' | 'ご' => Some("---- .."),
            'ザ' | 'ざ' => Some("-.-.- .."),
            'ジ' | 'じ' => Some("--.-. .."),
            'ズ' | 'ず' => Some("---.- .."),
            'ゼ' | 'ぜ' => Some(".---. .."),
            'ゾ' | 'ぞ' => Some("---. .."),
            'ダ' | 'だ' => Some("-. .."),
            'ヂ' | 'ぢ' => Some("..-. .."),
            'ヅ' | 'づ' => Some(".--. .."),
            'デ' | 'で' => Some(".-.-- .."),
            'ド' | 'ど' => Some("..-.. .."),
            'バ' | 'ば' => Some("-... .."),
            'ビ' | 'び' => Some("--..- .."),
            'ブ' | 'ぶ' => Some("--.. .."),
            'ベ' | 'べ' => Some(". .."),
            'ボ' | 'ぼ' => Some("-.. .."),
            // kana, semi-voiced
            '゜' => Some("..--."),
            'パ' | 'ぱ' => Some("-... ..--."),
            'ピ' | 'ぴ' => Some("--..- ..--."),
            'プ' | 'ぷ' => Some("--.. ..--."),
            'ペ' | 'ぺ' => Some(". ..--."),
            'ポ' | 'ぽ' => Some("-.. ..--."),
            // kana punctuation
            '－' | 'ー' => Some(".--.-"),
            '（' => Some("-.--.-"),
            '）' => Some(".-..-."),
            '、' => Some(".-.-.-"),
            '」' => Some(".-.-.."),
            // grouping brackets
            '<' => Some("<"),
            '>' => Some(">"),
            _ => None,
        }
    }
}

/// Builds the immutable character → symbol translation mapping the
/// sequencer reads for the rest of the run.
pub fn set_translation_table() -> (t: TranslationTable)
    ensures
        t@ == spec_translation_map(),
{
    TranslationTable {  }
}

} // verus!
