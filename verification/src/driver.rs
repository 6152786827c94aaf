//! Database drivers and the connection defaults, charsets and collations that
//! each of them offers.
use vstd::prelude::*;
use crate::text::str_eq;

verus! {

/// The views of a list of string slices.
pub open spec fn strs(v: Seq<&str>) -> Seq<Seq<char>> {
    v.map_values(|s: &str| s@)
}

/// A database product that a connection profile can target.
#[derive(Debug, Clone, Copy, PartialEq, Eq, Structural, Hash)]
pub enum DatabaseDriver {
    MySql,
    MariaDb,
    TiDb,
    PostgreSql,
    CockroachDb,
    Sqlite,
    SqlServer,
    Oracle,
    MongoDb,
}

/// The drivers speaking the MySQL dialect.
pub open spec fn is_mysql_family(d: DatabaseDriver) -> bool {
    d == DatabaseDriver::MySql || d == DatabaseDriver::MariaDb || d == DatabaseDriver::TiDb
}

/// The drivers speaking the PostgreSQL dialect.
pub open spec fn is_postgres_family(d: DatabaseDriver) -> bool {
    d == DatabaseDriver::PostgreSql || d == DatabaseDriver::CockroachDb
}

pub open spec fn mysql_charsets() -> Seq<&'static str> {
    seq!["utf8mb4", "utf8mb3", "utf8", "latin1", "ascii", "binary", "gbk", "gb2312", "gb18030", "big5", "ucs2", "utf16", "utf16le", "utf32", "cp932", "sjis", "ujis", "euckr", "armscii8", "cp1250", "cp1251", "cp1256", "cp1257", "cp850", "cp852", "cp866", "dec8", "geostd8", "greek", "hebrew", "hp8", "keybcs2", "koi8r", "koi8u", "latin2", "latin5", "latin7", "macce", "macroman", "swe7", "tis620"]
}

fn mysql_charsets_list() -> (r: Vec<&'static str>)
    ensures
        r@ == mysql_charsets(),
{
    vec!["utf8mb4", "utf8mb3", "utf8", "latin1", "ascii", "binary", "gbk", "gb2312", "gb18030", "big5", "ucs2", "utf16", "utf16le", "utf32", "cp932", "sjis", "ujis", "euckr", "armscii8", "cp1250", "cp1251", "cp1256", "cp1257", "cp850", "cp852", "cp866", "dec8", "geostd8", "greek", "hebrew", "hp8", "keybcs2", "koi8r", "koi8u", "latin2", "latin5", "latin7", "macce", "macroman", "swe7", "tis620"]
}

pub open spec fn postgres_charsets() -> Seq<&'static str> {
    seq!["UTF8", "LATIN1", "SQL_ASCII", "WIN1252", "EUC_CN", "GB18030", "BIG5"]
}

fn postgres_charsets_list() -> (r: Vec<&'static str>)
    ensures
        r@ == postgres_charsets(),
{
    vec!["UTF8", "LATIN1", "SQL_ASCII", "WIN1252", "EUC_CN", "GB18030", "BIG5"]
}

pub open spec fn sqlite_charsets() -> Seq<&'static str> {
    seq!["UTF8", "UTF16le", "UTF16be"]
}

fn sqlite_charsets_list() -> (r: Vec<&'static str>)
    ensures
        r@ == sqlite_charsets(),
{
    vec!["UTF8", "UTF16le", "UTF16be"]
}

pub open spec fn sql_server_charsets() -> Seq<&'static str> {
    seq!["UTF8", "UTF16", "CP936", "CP950", "CP1252"]
}

fn sql_server_charsets_list() -> (r: Vec<&'static str>)
    ensures
        r@ == sql_server_charsets(),
{
    vec!["UTF8", "UTF16", "CP936", "CP950", "CP1252"]
}

pub open spec fn oracle_charsets() -> Seq<&'static str> {
    seq!["AL32UTF8", "UTF8", "ZHS16GBK", "WE8MSWIN1252", "AL16UTF16"]
}

fn oracle_charsets_list() -> (r: Vec<&'static str>)
    ensures
        r@ == oracle_charsets(),
{
    vec!["AL32UTF8", "UTF8", "ZHS16GBK", "WE8MSWIN1252", "AL16UTF16"]
}

pub open spec fn generic_charsets() -> Seq<&'static str> {
    seq!["UTF8", "UTF16", "latin1"]
}

fn generic_charsets_list() -> (r: Vec<&'static str>)
    ensures
        r@ == generic_charsets(),
{
    vec!["UTF8", "UTF16", "latin1"]
}

pub open spec fn mysql_utf8mb4_collations() -> Seq<&'static str> {
    seq!["utf8mb4_0900_ai_ci", "utf8mb4_0900_as_ci", "utf8mb4_0900_as_cs", "utf8mb4_0900_bin", "utf8mb4_general_ci", "utf8mb4_unicode_ci", "utf8mb4_unicode_520_ci", "utf8mb4_bin", "utf8mb4_croatian_ci", "utf8mb4_czech_ci", "utf8mb4_danish_ci", "utf8mb4_esperanto_ci", "utf8mb4_estonian_ci", "utf8mb4_german2_ci", "utf8mb4_hungarian_ci", "utf8mb4_icelandic_ci", "utf8mb4_latvian_ci", "utf8mb4_lithuanian_ci", "utf8mb4_persian_ci", "utf8mb4_polish_ci", "utf8mb4_roman_ci", "utf8mb4_romanian_ci", "utf8mb4_sinhala_ci", "utf8mb4_slovak_ci", "utf8mb4_slovenian_ci", "utf8mb4_spanish_ci", "utf8mb4_spanish2_ci", "utf8mb4_swedish_ci", "utf8mb4_turkish_ci", "utf8mb4_vietnamese_ci", "utf8mb4_de_pb_0900_ai_ci", "utf8mb4_is_0900_ai_ci", "utf8mb4_lv_0900_ai_ci", "utf8mb4_ro_0900_ai_ci", "utf8mb4_sl_0900_ai_ci", "utf8mb4_pl_0900_ai_ci", "utf8mb4_et_0900_ai_ci", "utf8mb4_es_0900_ai_ci", "utf8mb4_sv_0900_ai_ci", "utf8mb4_tr_0900_ai_ci", "utf8mb4_vi_0900_ai_ci", "utf8mb4_zh_0900_as_cs", "utf8mb4_ja_0900_as_cs", "utf8mb4_ja_0900_as_cs_ks", "utf8mb4_ko_0900_as_cs", "utf8mb4_ru_0900_ai_ci"]
}

fn mysql_utf8mb4_collations_list() -> (r: Vec<&'static str>)
    ensures
        r@ == mysql_utf8mb4_collations(),
{
    vec!["utf8mb4_0900_ai_ci", "utf8mb4_0900_as_ci", "utf8mb4_0900_as_cs", "utf8mb4_0900_bin", "utf8mb4_general_ci", "utf8mb4_unicode_ci", "utf8mb4_unicode_520_ci", "utf8mb4_bin", "utf8mb4_croatian_ci", "utf8mb4_czech_ci", "utf8mb4_danish_ci", "utf8mb4_esperanto_ci", "utf8mb4_estonian_ci", "utf8mb4_german2_ci", "utf8mb4_hungarian_ci", "utf8mb4_icelandic_ci", "utf8mb4_latvian_ci", "utf8mb4_lithuanian_ci", "utf8mb4_persian_ci", "utf8mb4_polish_ci", "utf8mb4_roman_ci", "utf8mb4_romanian_ci", "utf8mb4_sinhala_ci", "utf8mb4_slovak_ci", "utf8mb4_slovenian_ci", "utf8mb4_spanish_ci", "utf8mb4_spanish2_ci", "utf8mb4_swedish_ci", "utf8mb4_turkish_ci", "utf8mb4_vietnamese_ci", "utf8mb4_de_pb_0900_ai_ci", "utf8mb4_is_0900_ai_ci", "utf8mb4_lv_0900_ai_ci", "utf8mb4_ro_0900_ai_ci", "utf8mb4_sl_0900_ai_ci", "utf8mb4_pl_0900_ai_ci", "utf8mb4_et_0900_ai_ci", "utf8mb4_es_0900_ai_ci", "utf8mb4_sv_0900_ai_ci", "utf8mb4_tr_0900_ai_ci", "utf8mb4_vi_0900_ai_ci", "utf8mb4_zh_0900_as_cs", "utf8mb4_ja_0900_as_cs", "utf8mb4_ja_0900_as_cs_ks", "utf8mb4_ko_0900_as_cs", "utf8mb4_ru_0900_ai_ci"]
}

pub open spec fn mariadb_utf8mb4_collations() -> Seq<&'static str> {
    seq!["utf8mb4_general_ci", "utf8mb4_unicode_ci", "utf8mb4_unicode_520_ci", "utf8mb4_bin", "utf8mb4_uca1400_ai_ci", "utf8mb4_uca1400_as_ci", "utf8mb4_uca1400_as_cs", "utf8mb4_0900_ai_ci"]
}

fn mariadb_utf8mb4_collations_list() -> (r: Vec<&'static str>)
    ensures
        r@ == mariadb_utf8mb4_collations(),
{
    vec!["utf8mb4_general_ci", "utf8mb4_unicode_ci", "utf8mb4_unicode_520_ci", "utf8mb4_bin", "utf8mb4_uca1400_ai_ci", "utf8mb4_uca1400_as_ci", "utf8mb4_uca1400_as_cs", "utf8mb4_0900_ai_ci"]
}

pub open spec fn mysql_utf8_collations() -> Seq<&'static str> {
    seq!["utf8_general_ci", "utf8_unicode_ci", "utf8_unicode_520_ci", "utf8_bin"]
}

fn mysql_utf8_collations_list() -> (r: Vec<&'static str>)
    ensures
        r@ == mysql_utf8_collations(),
{
    vec!["utf8_general_ci", "utf8_unicode_ci", "utf8_unicode_520_ci", "utf8_bin"]
}

pub open spec fn mysql_latin1_collations() -> Seq<&'static str> {
    seq!["latin1_swedish_ci", "latin1_general_ci", "latin1_general_cs", "latin1_bin"]
}

fn mysql_latin1_collations_list() -> (r: Vec<&'static str>)
    ensures
        r@ == mysql_latin1_collations(),
{
    vec!["latin1_swedish_ci", "latin1_general_ci", "latin1_general_cs", "latin1_bin"]
}

pub open spec fn mysql_ascii_collations() -> Seq<&'static str> {
    seq!["ascii_general_ci", "ascii_bin"]
}

fn mysql_ascii_collations_list() -> (r: Vec<&'static str>)
    ensures
        r@ == mysql_ascii_collations(),
{
    vec!["ascii_general_ci", "ascii_bin"]
}

pub open spec fn mysql_binary_collations() -> Seq<&'static str> {
    seq!["binary"]
}

fn mysql_binary_collations_list() -> (r: Vec<&'static str>)
    ensures
        r@ == mysql_binary_collations(),
{
    vec!["binary"]
}

pub open spec fn mysql_gbk_collations() -> Seq<&'static str> {
    seq!["gbk_chinese_ci", "gbk_bin"]
}

fn mysql_gbk_collations_list() -> (r: Vec<&'static str>)
    ensures
        r@ == mysql_gbk_collations(),
{
    vec!["gbk_chinese_ci", "gbk_bin"]
}

pub open spec fn mysql_gb2312_collations() -> Seq<&'static str> {
    seq!["gb2312_chinese_ci", "gb2312_bin"]
}

fn mysql_gb2312_collations_list() -> (r: Vec<&'static str>)
    ensures
        r@ == mysql_gb2312_collations(),
{
    vec!["gb2312_chinese_ci", "gb2312_bin"]
}

pub open spec fn mysql_gb18030_collations() -> Seq<&'static str> {
    seq!["gb18030_chinese_ci", "gb18030_unicode_520_ci", "gb18030_bin"]
}

fn mysql_gb18030_collations_list() -> (r: Vec<&'static str>)
    ensures
        r@ == mysql_gb18030_collations(),
{
    vec!["gb18030_chinese_ci", "gb18030_unicode_520_ci", "gb18030_bin"]
}

pub open spec fn mysql_big5_collations() -> Seq<&'static str> {
    seq!["big5_chinese_ci", "big5_bin"]
}

fn mysql_big5_collations_list() -> (r: Vec<&'static str>)
    ensures
        r@ == mysql_big5_collations(),
{
    vec!["big5_chinese_ci", "big5_bin"]
}

pub open spec fn mysql_ucs2_collations() -> Seq<&'static str> {
    seq!["ucs2_general_ci", "ucs2_unicode_ci", "ucs2_bin"]
}

fn mysql_ucs2_collations_list() -> (r: Vec<&'static str>)
    ensures
        r@ == mysql_ucs2_collations(),
{
    vec!["ucs2_general_ci", "ucs2_unicode_ci", "ucs2_bin"]
}

pub open spec fn mysql_utf16_collations() -> Seq<&'static str> {
    seq!["utf16_general_ci", "utf16_unicode_ci", "utf16_bin"]
}

fn mysql_utf16_collations_list() -> (r: Vec<&'static str>)
    ensures
        r@ == mysql_utf16_collations(),
{
    vec!["utf16_general_ci", "utf16_unicode_ci", "utf16_bin"]
}

pub open spec fn mysql_utf16le_collations() -> Seq<&'static str> {
    seq!["utf16le_general_ci", "utf16le_bin"]
}

fn mysql_utf16le_collations_list() -> (r: Vec<&'static str>)
    ensures
        r@ == mysql_utf16le_collations(),
{
    vec!["utf16le_general_ci", "utf16le_bin"]
}

pub open spec fn mysql_utf32_collations() -> Seq<&'static str> {
    seq!["utf32_general_ci", "utf32_unicode_ci", "utf32_bin"]
}

fn mysql_utf32_collations_list() -> (r: Vec<&'static str>)
    ensures
        r@ == mysql_utf32_collations(),
{
    vec!["utf32_general_ci", "utf32_unicode_ci", "utf32_bin"]
}

pub open spec fn mysql_cp932_collations() -> Seq<&'static str> {
    seq!["cp932_japanese_ci", "cp932_bin"]
}

fn mysql_cp932_collations_list() -> (r: Vec<&'static str>)
    ensures
        r@ == mysql_cp932_collations(),
{
    vec!["cp932_japanese_ci", "cp932_bin"]
}

pub open spec fn mysql_sjis_collations() -> Seq<&'static str> {
    seq!["sjis_japanese_ci", "sjis_bin"]
}

fn mysql_sjis_collations_list() -> (r: Vec<&'static str>)
    ensures
        r@ == mysql_sjis_collations(),
{
    vec!["sjis_japanese_ci", "sjis_bin"]
}

pub open spec fn mysql_ujis_collations() -> Seq<&'static str> {
    seq!["ujis_japanese_ci", "ujis_bin"]
}

fn mysql_ujis_collations_list() -> (r: Vec<&'static str>)
    ensures
        r@ == mysql_ujis_collations(),
{
    vec!["ujis_japanese_ci", "ujis_bin"]
}

pub open spec fn mysql_euckr_collations() -> Seq<&'static str> {
    seq!["euckr_korean_ci", "euckr_bin"]
}

fn mysql_euckr_collations_list() -> (r: Vec<&'static str>)
    ensures
        r@ == mysql_euckr_collations(),
{
    vec!["euckr_korean_ci", "euckr_bin"]
}

pub open spec fn mysql_armscii8_collations() -> Seq<&'static str> {
    seq!["armscii8_general_ci", "armscii8_bin"]
}

fn mysql_armscii8_collations_list() -> (r: Vec<&'static str>)
    ensures
        r@ == mysql_armscii8_collations(),
{
    vec!["armscii8_general_ci", "armscii8_bin"]
}

pub open spec fn mysql_cp1250_collations() -> Seq<&'static str> {
    seq!["cp1250_general_ci", "cp1250_czech_cs", "cp1250_croatian_ci", "cp1250_polish_ci", "cp1250_bin"]
}

fn mysql_cp1250_collations_list() -> (r: Vec<&'static str>)
    ensures
        r@ == mysql_cp1250_collations(),
{
    vec!["cp1250_general_ci", "cp1250_czech_cs", "cp1250_croatian_ci", "cp1250_polish_ci", "cp1250_bin"]
}

pub open spec fn mysql_cp1251_collations() -> Seq<&'static str> {
    seq!["cp1251_general_ci", "cp1251_bulgarian_ci", "cp1251_ukrainian_ci", "cp1251_bin"]
}

fn mysql_cp1251_collations_list() -> (r: Vec<&'static str>)
    ensures
        r@ == mysql_cp1251_collations(),
{
    vec!["cp1251_general_ci", "cp1251_bulgarian_ci", "cp1251_ukrainian_ci", "cp1251_bin"]
}

pub open spec fn mysql_cp1256_collations() -> Seq<&'static str> {
    seq!["cp1256_general_ci", "cp1256_bin"]
}

fn mysql_cp1256_collations_list() -> (r: Vec<&'static str>)
    ensures
        r@ == mysql_cp1256_collations(),
{
    vec!["cp1256_general_ci", "cp1256_bin"]
}

pub open spec fn mysql_cp1257_collations() -> Seq<&'static str> {
    seq!["cp1257_general_ci", "cp1257_lithuanian_ci", "cp1257_bin"]
}

fn mysql_cp1257_collations_list() -> (r: Vec<&'static str>)
    ensures
        r@ == mysql_cp1257_collations(),
{
    vec!["cp1257_general_ci", "cp1257_lithuanian_ci", "cp1257_bin"]
}

pub open spec fn mysql_cp850_collations() -> Seq<&'static str> {
    seq!["cp850_general_ci", "cp850_bin"]
}

fn mysql_cp850_collations_list() -> (r: Vec<&'static str>)
    ensures
        r@ == mysql_cp850_collations(),
{
    vec!["cp850_general_ci", "cp850_bin"]
}

pub open spec fn mysql_cp852_collations() -> Seq<&'static str> {
    seq!["cp852_general_ci", "cp852_bin"]
}

fn mysql_cp852_collations_list() -> (r: Vec<&'static str>)
    ensures
        r@ == mysql_cp852_collations(),
{
    vec!["cp852_general_ci", "cp852_bin"]
}

pub open spec fn mysql_cp866_collations() -> Seq<&'static str> {
    seq!["cp866_general_ci", "cp866_bin"]
}

fn mysql_cp866_collations_list() -> (r: Vec<&'static str>)
    ensures
        r@ == mysql_cp866_collations(),
{
    vec!["cp866_general_ci", "cp866_bin"]
}

pub open spec fn mysql_dec8_collations() -> Seq<&'static str> {
    seq!["dec8_swedish_ci", "dec8_bin"]
}

fn mysql_dec8_collations_list() -> (r: Vec<&'static str>)
    ensures
        r@ == mysql_dec8_collations(),
{
    vec!["dec8_swedish_ci", "dec8_bin"]
}

pub open spec fn mysql_geostd8_collations() -> Seq<&'static str> {
    seq!["geostd8_general_ci", "geostd8_bin"]
}

fn mysql_geostd8_collations_list() -> (r: Vec<&'static str>)
    ensures
        r@ == mysql_geostd8_collations(),
{
    vec!["geostd8_general_ci", "geostd8_bin"]
}

pub open spec fn mysql_greek_collations() -> Seq<&'static str> {
    seq!["greek_general_ci", "greek_bin"]
}

fn mysql_greek_collations_list() -> (r: Vec<&'static str>)
    ensures
        r@ == mysql_greek_collations(),
{
    vec!["greek_general_ci", "greek_bin"]
}

pub open spec fn mysql_hebrew_collations() -> Seq<&'static str> {
    seq!["hebrew_general_ci", "hebrew_bin"]
}

fn mysql_hebrew_collations_list() -> (r: Vec<&'static str>)
    ensures
        r@ == mysql_hebrew_collations(),
{
    vec!["hebrew_general_ci", "hebrew_bin"]
}

pub open spec fn mysql_hp8_collations() -> Seq<&'static str> {
    seq!["hp8_english_ci", "hp8_bin"]
}

fn mysql_hp8_collations_list() -> (r: Vec<&'static str>)
    ensures
        r@ == mysql_hp8_collations(),
{
    vec!["hp8_english_ci", "hp8_bin"]
}

pub open spec fn mysql_keybcs2_collations() -> Seq<&'static str> {
    seq!["keybcs2_general_ci", "keybcs2_bin"]
}

fn mysql_keybcs2_collations_list() -> (r: Vec<&'static str>)
    ensures
        r@ == mysql_keybcs2_collations(),
{
    vec!["keybcs2_general_ci", "keybcs2_bin"]
}

pub open spec fn mysql_koi8r_collations() -> Seq<&'static str> {
    seq!["koi8r_general_ci", "koi8r_bin"]
}

fn mysql_koi8r_collations_list() -> (r: Vec<&'static str>)
    ensures
        r@ == mysql_koi8r_collations(),
{
    vec!["koi8r_general_ci", "koi8r_bin"]
}

pub open spec fn mysql_koi8u_collations() -> Seq<&'static str> {
    seq!["koi8u_general_ci", "koi8u_bin"]
}

fn mysql_koi8u_collations_list() -> (r: Vec<&'static str>)
    ensures
        r@ == mysql_koi8u_collations(),
{
    vec!["koi8u_general_ci", "koi8u_bin"]
}

pub open spec fn mysql_latin2_collations() -> Seq<&'static str> {
    seq!["latin2_general_ci", "latin2_czech_cs", "latin2_croatian_ci", "latin2_hungarian_ci", "latin2_bin"]
}

fn mysql_latin2_collations_list() -> (r: Vec<&'static str>)
    ensures
        r@ == mysql_latin2_collations(),
{
    vec!["latin2_general_ci", "latin2_czech_cs", "latin2_croatian_ci", "latin2_hungarian_ci", "latin2_bin"]
}

pub open spec fn mysql_latin5_collations() -> Seq<&'static str> {
    seq!["latin5_turkish_ci", "latin5_bin"]
}

fn mysql_latin5_collations_list() -> (r: Vec<&'static str>)
    ensures
        r@ == mysql_latin5_collations(),
{
    vec!["latin5_turkish_ci", "latin5_bin"]
}

pub open spec fn mysql_latin7_collations() -> Seq<&'static str> {
    seq!["latin7_general_ci", "latin7_estonian_cs", "latin7_general_cs", "latin7_bin"]
}

fn mysql_latin7_collations_list() -> (r: Vec<&'static str>)
    ensures
        r@ == mysql_latin7_collations(),
{
    vec!["latin7_general_ci", "latin7_estonian_cs", "latin7_general_cs", "latin7_bin"]
}

pub open spec fn mysql_macce_collations() -> Seq<&'static str> {
    seq!["macce_general_ci", "macce_bin"]
}

fn mysql_macce_collations_list() -> (r: Vec<&'static str>)
    ensures
        r@ == mysql_macce_collations(),
{
    vec!["macce_general_ci", "macce_bin"]
}

pub open spec fn mysql_macroman_collations() -> Seq<&'static str> {
    seq!["macroman_general_ci", "macroman_bin"]
}

fn mysql_macroman_collations_list() -> (r: Vec<&'static str>)
    ensures
        r@ == mysql_macroman_collations(),
{
    vec!["macroman_general_ci", "macroman_bin"]
}

pub open spec fn mysql_swe7_collations() -> Seq<&'static str> {
    seq!["swe7_swedish_ci", "swe7_bin"]
}

fn mysql_swe7_collations_list() -> (r: Vec<&'static str>)
    ensures
        r@ == mysql_swe7_collations(),
{
    vec!["swe7_swedish_ci", "swe7_bin"]
}

pub open spec fn mysql_tis620_collations() -> Seq<&'static str> {
    seq!["tis620_thai_ci", "tis620_bin"]
}

fn mysql_tis620_collations_list() -> (r: Vec<&'static str>)
    ensures
        r@ == mysql_tis620_collations(),
{
    vec!["tis620_thai_ci", "tis620_bin"]
}

pub open spec fn postgres_collations() -> Seq<&'static str> {
    seq!["C", "POSIX", "en_US.utf8", "zh_CN.utf8", "und-x-icu"]
}

fn postgres_collations_list() -> (r: Vec<&'static str>)
    ensures
        r@ == postgres_collations(),
{
    vec!["C", "POSIX", "en_US.utf8", "zh_CN.utf8", "und-x-icu"]
}

pub open spec fn sqlite_collations() -> Seq<&'static str> {
    seq!["BINARY", "NOCASE", "RTRIM"]
}

fn sqlite_collations_list() -> (r: Vec<&'static str>)
    ensures
        r@ == sqlite_collations(),
{
    vec!["BINARY", "NOCASE", "RTRIM"]
}

pub open spec fn sql_server_utf8_collations() -> Seq<&'static str> {
    seq!["Latin1_General_100_CI_AS_SC_UTF8", "Latin1_General_100_BIN2_UTF8", "Chinese_PRC_100_CI_AS_SC_UTF8"]
}

fn sql_server_utf8_collations_list() -> (r: Vec<&'static str>)
    ensures
        r@ == sql_server_utf8_collations(),
{
    vec!["Latin1_General_100_CI_AS_SC_UTF8", "Latin1_General_100_BIN2_UTF8", "Chinese_PRC_100_CI_AS_SC_UTF8"]
}

pub open spec fn sql_server_collations() -> Seq<&'static str> {
    seq!["SQL_Latin1_General_CP1_CI_AS", "Latin1_General_CI_AS", "Latin1_General_BIN2", "Chinese_PRC_CI_AS", "Chinese_Taiwan_Stroke_CI_AS"]
}

fn sql_server_collations_list() -> (r: Vec<&'static str>)
    ensures
        r@ == sql_server_collations(),
{
    vec!["SQL_Latin1_General_CP1_CI_AS", "Latin1_General_CI_AS", "Latin1_General_BIN2", "Chinese_PRC_CI_AS", "Chinese_Taiwan_Stroke_CI_AS"]
}

pub open spec fn oracle_collations() -> Seq<&'static str> {
    seq!["BINARY", "BINARY_CI", "BINARY_AI", "USING_NLS_COMP"]
}

fn oracle_collations_list() -> (r: Vec<&'static str>)
    ensures
        r@ == oracle_collations(),
{
    vec!["BINARY", "BINARY_CI", "BINARY_AI", "USING_NLS_COMP"]
}

pub open spec fn generic_collations() -> Seq<&'static str> {
    seq!["C", "BINARY", "NOCASE"]
}

fn generic_collations_list() -> (r: Vec<&'static str>)
    ensures
        r@ == generic_collations(),
{
    vec!["C", "BINARY", "NOCASE"]
}

/// The collations MySQL offers for a charset; unknown charsets get those of `utf8mb4`.
pub open spec fn mysql_collations(charset: Seq<char>) -> Seq<&'static str> {
    if charset == "utf8mb4"@ {
        mysql_utf8mb4_collations()
    } else if charset == "utf8mb3"@ {
        mysql_utf8_collations()
    } else if charset == "utf8"@ {
        mysql_utf8_collations()
    } else if charset == "latin1"@ {
        mysql_latin1_collations()
    } else if charset == "ascii"@ {
        mysql_ascii_collations()
    } else if charset == "binary"@ {
        mysql_binary_collations()
    } else if charset == "gbk"@ {
        mysql_gbk_collations()
    } else if charset == "gb2312"@ {
        mysql_gb2312_collations()
    } else if charset == "gb18030"@ {
        mysql_gb18030_collations()
    } else if charset == "big5"@ {
        mysql_big5_collations()
    } else if charset == "ucs2"@ {
        mysql_ucs2_collations()
    } else if charset == "utf16"@ {
        mysql_utf16_collations()
    } else if charset == "utf16le"@ {
        mysql_utf16le_collations()
    } else if charset == "utf32"@ {
        mysql_utf32_collations()
    } else if charset == "cp932"@ {
        mysql_cp932_collations()
    } else if charset == "sjis"@ {
        mysql_sjis_collations()
    } else if charset == "ujis"@ {
        mysql_ujis_collations()
    } else if charset == "euckr"@ {
        mysql_euckr_collations()
    } else if charset == "armscii8"@ {
        mysql_armscii8_collations()
    } else if charset == "cp1250"@ {
        mysql_cp1250_collations()
    } else if charset == "cp1251"@ {
        mysql_cp1251_collations()
    } else if charset == "cp1256"@ {
        mysql_cp1256_collations()
    } else if charset == "cp1257"@ {
        mysql_cp1257_collations()
    } else if charset == "cp850"@ {
        mysql_cp850_collations()
    } else if charset == "cp852"@ {
        mysql_cp852_collations()
    } else if charset == "cp866"@ {
        mysql_cp866_collations()
    } else if charset == "dec8"@ {
        mysql_dec8_collations()
    } else if charset == "geostd8"@ {
        mysql_geostd8_collations()
    } else if charset == "greek"@ {
        mysql_greek_collations()
    } else if charset == "hebrew"@ {
        mysql_hebrew_collations()
    } else if charset == "hp8"@ {
        mysql_hp8_collations()
    } else if charset == "keybcs2"@ {
        mysql_keybcs2_collations()
    } else if charset == "koi8r"@ {
        mysql_koi8r_collations()
    } else if charset == "koi8u"@ {
        mysql_koi8u_collations()
    } else if charset == "latin2"@ {
        mysql_latin2_collations()
    } else if charset == "latin5"@ {
        mysql_latin5_collations()
    } else if charset == "latin7"@ {
        mysql_latin7_collations()
    } else if charset == "macce"@ {
        mysql_macce_collations()
    } else if charset == "macroman"@ {
        mysql_macroman_collations()
    } else if charset == "swe7"@ {
        mysql_swe7_collations()
    } else if charset == "tis620"@ {
        mysql_tis620_collations()
    } else {
        mysql_utf8mb4_collations()
    }
}

fn mysql_collations_list(charset: &str) -> (r: Vec<&'static str>)
    ensures
        r@ == mysql_collations(charset@),
{
    if str_eq(charset, "utf8mb4") {
        mysql_utf8mb4_collations_list()
    } else if str_eq(charset, "utf8mb3") {
        mysql_utf8_collations_list()
    } else if str_eq(charset, "utf8") {
        mysql_utf8_collations_list()
    } else if str_eq(charset, "latin1") {
        mysql_latin1_collations_list()
    } else if str_eq(charset, "ascii") {
        mysql_ascii_collations_list()
    } else if str_eq(charset, "binary") {
        mysql_binary_collations_list()
    } else if str_eq(charset, "gbk") {
        mysql_gbk_collations_list()
    } else if str_eq(charset, "gb2312") {
        mysql_gb2312_collations_list()
    } else if str_eq(charset, "gb18030") {
        mysql_gb18030_collations_list()
    } else if str_eq(charset, "big5") {
        mysql_big5_collations_list()
    } else if str_eq(charset, "ucs2") {
        mysql_ucs2_collations_list()
    } else if str_eq(charset, "utf16") {
        mysql_utf16_collations_list()
    } else if str_eq(charset, "utf16le") {
        mysql_utf16le_collations_list()
    } else if str_eq(charset, "utf32") {
        mysql_utf32_collations_list()
    } else if str_eq(charset, "cp932") {
        mysql_cp932_collations_list()
    } else if str_eq(charset, "sjis") {
        mysql_sjis_collations_list()
    } else if str_eq(charset, "ujis") {
        mysql_ujis_collations_list()
    } else if str_eq(charset, "euckr") {
        mysql_euckr_collations_list()
    } else if str_eq(charset, "armscii8") {
        mysql_armscii8_collations_list()
    } else if str_eq(charset, "cp1250") {
        mysql_cp1250_collations_list()
    } else if str_eq(charset, "cp1251") {
        mysql_cp1251_collations_list()
    } else if str_eq(charset, "cp1256") {
        mysql_cp1256_collations_list()
    } else if str_eq(charset, "cp1257") {
        mysql_cp1257_collations_list()
    } else if str_eq(charset, "cp850") {
        mysql_cp850_collations_list()
    } else if str_eq(charset, "cp852") {
        mysql_cp852_collations_list()
    } else if str_eq(charset, "cp866") {
        mysql_cp866_collations_list()
    } else if str_eq(charset, "dec8") {
        mysql_dec8_collations_list()
    } else if str_eq(charset, "geostd8") {
        mysql_geostd8_collations_list()
    } else if str_eq(charset, "greek") {
        mysql_greek_collations_list()
    } else if str_eq(charset, "hebrew") {
        mysql_hebrew_collations_list()
    } else if str_eq(charset, "hp8") {
        mysql_hp8_collations_list()
    } else if str_eq(charset, "keybcs2") {
        mysql_keybcs2_collations_list()
    } else if str_eq(charset, "koi8r") {
        mysql_koi8r_collations_list()
    } else if str_eq(charset, "koi8u") {
        mysql_koi8u_collations_list()
    } else if str_eq(charset, "latin2") {
        mysql_latin2_collations_list()
    } else if str_eq(charset, "latin5") {
        mysql_latin5_collations_list()
    } else if str_eq(charset, "latin7") {
        mysql_latin7_collations_list()
    } else if str_eq(charset, "macce") {
        mysql_macce_collations_list()
    } else if str_eq(charset, "macroman") {
        mysql_macroman_collations_list()
    } else if str_eq(charset, "swe7") {
        mysql_swe7_collations_list()
    } else if str_eq(charset, "tis620") {
        mysql_tis620_collations_list()
    } else {
        mysql_utf8mb4_collations_list()
    }
}

/// The collations MariaDB offers for a charset.
pub open spec fn mariadb_collations(charset: Seq<char>) -> Seq<&'static str> {
    if charset == "utf8mb4"@ {
        mariadb_utf8mb4_collations()
    } else {
        mysql_collations(charset)
    }
}

fn mariadb_collations_list(charset: &str) -> (r: Vec<&'static str>)
    ensures
        r@ == mariadb_collations(charset@),
{
    if str_eq(charset, "utf8mb4") {
        mariadb_utf8mb4_collations_list()
    } else {
        mysql_collations_list(charset)
    }
}

impl DatabaseDriver {
    /// The host (or file) a new profile for this driver starts with.
    pub open spec fn default_host_spec(self) -> Seq<char> {
        match self {
            DatabaseDriver::Sqlite => "./aktsql.db"@,
            _ => "127.0.0.1"@,
        }
    }

    /// The port a new profile for this driver starts with.
    pub open spec fn default_port_spec(self) -> Seq<char> {
        match self {
            DatabaseDriver::MySql | DatabaseDriver::MariaDb => "3306"@,
            DatabaseDriver::TiDb => "4000"@,
            DatabaseDriver::PostgreSql | DatabaseDriver::CockroachDb => "5432"@,
            DatabaseDriver::SqlServer => "1433"@,
            DatabaseDriver::Oracle => "1521"@,
            DatabaseDriver::MongoDb => "27017"@,
            DatabaseDriver::Sqlite => ""@,
        }
    }

    /// The user name a new profile for this driver starts with.
    pub open spec fn default_username_spec(self) -> Seq<char> {
        match self {
            DatabaseDriver::MySql | DatabaseDriver::MariaDb | DatabaseDriver::TiDb => "root"@,
            DatabaseDriver::PostgreSql | DatabaseDriver::CockroachDb => "postgres"@,
            DatabaseDriver::SqlServer => "sa"@,
            DatabaseDriver::Oracle => "system"@,
            DatabaseDriver::Sqlite => ""@,
            DatabaseDriver::MongoDb => "admin"@,
        }
    }

    /// The database a new profile for this driver starts with.
    pub open spec fn default_database_spec(self) -> Seq<char> {
        match self {
            DatabaseDriver::PostgreSql | DatabaseDriver::CockroachDb => "postgres"@,
            DatabaseDriver::SqlServer => "master"@,
            DatabaseDriver::Oracle => "ORCL"@,
            _ => ""@,
        }
    }

    /// The charset a new profile for this driver starts with.
    pub open spec fn default_charset_spec(self) -> Seq<char> {
        if is_mysql_family(self) {
            "utf8mb4"@
        } else {
            "UTF8"@
        }
    }

    /// The charsets offered for this driver.
    pub open spec fn charset_options_spec(self) -> Seq<&'static str> {
        match self {
            DatabaseDriver::MySql | DatabaseDriver::MariaDb | DatabaseDriver::TiDb => mysql_charsets(),
            DatabaseDriver::PostgreSql | DatabaseDriver::CockroachDb => postgres_charsets(),
            DatabaseDriver::Sqlite => sqlite_charsets(),
            DatabaseDriver::SqlServer => sql_server_charsets(),
            DatabaseDriver::Oracle => oracle_charsets(),
            DatabaseDriver::MongoDb => generic_charsets(),
        }
    }

    /// The collations offered for this driver and charset.
    pub open spec fn collation_options_spec(self, charset: Seq<char>) -> Seq<&'static str> {
        match self {
            DatabaseDriver::MySql | DatabaseDriver::TiDb => mysql_collations(charset),
            DatabaseDriver::MariaDb => mariadb_collations(charset),
            DatabaseDriver::PostgreSql | DatabaseDriver::CockroachDb => postgres_collations(),
            DatabaseDriver::Sqlite => sqlite_collations(),
            DatabaseDriver::SqlServer => if charset == "UTF8"@ {
                sql_server_utf8_collations()
            } else {
                sql_server_collations()
            },
            DatabaseDriver::Oracle => oracle_collations(),
            DatabaseDriver::MongoDb => generic_collations(),
        }
    }

    /// The first collation offered for the charset, or `C` when none is.
    pub open spec fn default_collation_for_charset_spec(self, charset: Seq<char>) -> Seq<char> {
        let options = self.collation_options_spec(charset);
        if options.len() > 0 {
            options[0]@
        } else {
            "C"@
        }
    }

    /// The collation a new profile for this driver starts with.
    pub open spec fn default_collation_spec(self) -> Seq<char> {
        self.default_collation_for_charset_spec(self.default_charset_spec())
    }

    /// The name of the location field for this driver.
    pub open spec fn location_label_spec(self) -> Seq<char> {
        match self {
            DatabaseDriver::Sqlite => "Database File"@,
            _ => "Host"@,
        }
    }

    /// The product name of this driver.
    pub open spec fn display_name_spec(self) -> Seq<char> {
        match self {
            DatabaseDriver::MySql => "MySQL"@,
            DatabaseDriver::MariaDb => "MariaDB"@,
            DatabaseDriver::TiDb => "TiDB"@,
            DatabaseDriver::PostgreSql => "PostgreSQL"@,
            DatabaseDriver::CockroachDb => "CockroachDB"@,
            DatabaseDriver::Sqlite => "SQLite"@,
            DatabaseDriver::SqlServer => "SQL Server"@,
            DatabaseDriver::Oracle => "Oracle"@,
            DatabaseDriver::MongoDb => "MongoDB"@,
        }
    }

    pub fn default_host(self) -> (r: &'static str)
        ensures
            r@ == self.default_host_spec(),
    {
        match self {
            DatabaseDriver::Sqlite => "./aktsql.db",
            _ => "127.0.0.1",
        }
    }

    pub fn default_port(self) -> (r: &'static str)
        ensures
            r@ == self.default_port_spec(),
    {
        match self {
            DatabaseDriver::MySql | DatabaseDriver::MariaDb => "3306",
            DatabaseDriver::TiDb => "4000",
            DatabaseDriver::PostgreSql | DatabaseDriver::CockroachDb => "5432",
            DatabaseDriver::SqlServer => "1433",
            DatabaseDriver::Oracle => "1521",
            DatabaseDriver::MongoDb => "27017",
            DatabaseDriver::Sqlite => "",
        }
    }

    pub fn default_username(self) -> (r: &'static str)
        ensures
            r@ == self.default_username_spec(),
    {
        match self {
            DatabaseDriver::MySql | DatabaseDriver::MariaDb | DatabaseDriver::TiDb => "root",
            DatabaseDriver::PostgreSql | DatabaseDriver::CockroachDb => "postgres",
            DatabaseDriver::SqlServer => "sa",
            DatabaseDriver::Oracle => "system",
            DatabaseDriver::Sqlite => "",
            DatabaseDriver::MongoDb => "admin",
        }
    }

    pub fn default_database(self) -> (r: &'static str)
        ensures
            r@ == self.default_database_spec(),
    {
        match self {
            DatabaseDriver::PostgreSql | DatabaseDriver::CockroachDb => "postgres",
            DatabaseDriver::SqlServer => "master",
            DatabaseDriver::Oracle => "ORCL",
            _ => "",
        }
    }

    pub fn default_charset(self) -> (r: &'static str)
        ensures
            r@ == self.default_charset_spec(),
    {
        match self {
            DatabaseDriver::MySql | DatabaseDriver::MariaDb | DatabaseDriver::TiDb => "utf8mb4",
            _ => "UTF8",
        }
    }

    pub fn charset_options(self) -> (r: Vec<&'static str>)
        ensures
            r@ == self.charset_options_spec(),
    {
        match self {
            DatabaseDriver::MySql | DatabaseDriver::MariaDb | DatabaseDriver::TiDb => mysql_charsets_list(),
            DatabaseDriver::PostgreSql | DatabaseDriver::CockroachDb => postgres_charsets_list(),
            DatabaseDriver::Sqlite => sqlite_charsets_list(),
            DatabaseDriver::SqlServer => sql_server_charsets_list(),
            DatabaseDriver::Oracle => oracle_charsets_list(),
            DatabaseDriver::MongoDb => generic_charsets_list(),
        }
    }

    pub fn default_collation(self) -> (r: &'static str)
        ensures
            r@ == self.default_collation_spec(),
    {
        self.default_collation_for_charset(self.default_charset())
    }

    pub fn default_collation_for_charset(self, charset: &str) -> (r: &'static str)
        ensures
            r@ == self.default_collation_for_charset_spec(charset@),
    {
        let options = self.collation_options(charset);
        if options.len() > 0 {
            options[0]
        } else {
            "C"
        }
    }

    pub fn collation_options(self, charset: &str) -> (r: Vec<&'static str>)
        ensures
            r@ == self.collation_options_spec(charset@),
    {
        match self {
            DatabaseDriver::MySql | DatabaseDriver::TiDb => mysql_collations_list(charset),
            DatabaseDriver::MariaDb => mariadb_collations_list(charset),
            DatabaseDriver::PostgreSql | DatabaseDriver::CockroachDb => postgres_collations_list(),
            DatabaseDriver::Sqlite => sqlite_collations_list(),
            DatabaseDriver::SqlServer => {
                if str_eq(charset, "UTF8") {
                    sql_server_utf8_collations_list()
                } else {
                    sql_server_collations_list()
                }
            },
            DatabaseDriver::Oracle => oracle_collations_list(),
            DatabaseDriver::MongoDb => generic_collations_list(),
        }
    }

    pub fn location_label(self) -> (r: &'static str)
        ensures
            r@ == self.location_label_spec(),
    {
        match self {
            DatabaseDriver::Sqlite => "Database File",
            _ => "Host",
        }
    }

    pub fn uses_network(self) -> (r: bool)
        ensures
            r == (self != DatabaseDriver::Sqlite),
    {
        !matches!(self, DatabaseDriver::Sqlite)
    }

    pub fn requires_port(self) -> (r: bool)
        ensures
            r == (self != DatabaseDriver::Sqlite),
    {
        !matches!(self, DatabaseDriver::Sqlite)
    }

    /// The product name, as the driver is shown to users.
    pub fn display_name(self) -> (r: &'static str)
        ensures
            r@ == self.display_name_spec(),
    {
        match self {
            DatabaseDriver::MySql => "MySQL",
            DatabaseDriver::MariaDb => "MariaDB",
            DatabaseDriver::TiDb => "TiDB",
            DatabaseDriver::PostgreSql => "PostgreSQL",
            DatabaseDriver::CockroachDb => "CockroachDB",
            DatabaseDriver::Sqlite => "SQLite",
            DatabaseDriver::SqlServer => "SQL Server",
            DatabaseDriver::Oracle => "Oracle",
            DatabaseDriver::MongoDb => "MongoDB",
        }
    }
}

/// Every driver offers at least one collation for every charset, so the
/// `C` fallback is never taken: the default collation of a charset is the
/// first one offered.
pub proof fn collations_are_never_missing(driver: DatabaseDriver, charset: Seq<char>)
    ensures
        driver.collation_options_spec(charset).len() > 0,
        driver.default_collation_for_charset_spec(charset) == driver.collation_options_spec(
            charset,
        )[0]@,
{
}

/// Each driver offers its default charset, and offers its default
/// collation for that charset.
pub proof fn defaults_are_offered(driver: DatabaseDriver)
    ensures
        strs(driver.charset_options_spec()).contains(driver.default_charset_spec()),
        strs(driver.collation_options_spec(driver.default_charset_spec())).contains(
            driver.default_collation_spec(),
        ),
{
    collations_are_never_missing(driver, driver.default_charset_spec());
    let charsets = strs(driver.charset_options_spec());
    let k: int = if driver == DatabaseDriver::Oracle {
        1
    } else {
        0
    };
    assert(charsets[k] == driver.default_charset_spec());
    let collations = strs(driver.collation_options_spec(driver.default_charset_spec()));
    assert(collations[0] == driver.default_collation_spec());
}

} // verus!
