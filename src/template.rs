use vstd::prelude::*;
use vstd::string::*;
use crate::color::{sanitize_hex, sanitized_hex};

verus! {

/// Relies on `html_escape::encode_text`: `&`, `<` and `>` become `&amp;`,
/// `&lt;` and `&gt;`, every other character is kept.
#[verifier::external_body]
fn encode_text(s: &str) -> (r: String)
    ensures
        r@ == escaped_text(s@),
{
    html_escape::encode_text(s).into_owned()
}

/// The text form of one character in HTML text content.
pub open spec fn escaped_char(c: char) -> Seq<char> {
    if c == '&' {
        seq!['&', 'a', 'm', 'p', ';']
    } else if c == '<' {
        seq!['&', 'l', 't', ';']
    } else if c == '>' {
        seq!['&', 'g', 't', ';']
    } else {
        seq![c]
    }
}

/// `s` with `&`, `<` and `>` escaped for HTML text content.
pub open spec fn escaped_text(s: Seq<char>) -> Seq<char>
    decreases s.len(),
{
    if s.len() == 0 {
        Seq::empty()
    } else {
        escaped_text(s.drop_last()) + escaped_char(s.last())
    }
}

pub open spec fn digit_char(d: nat) -> char {
    if d == 0 { '0' } else if d == 1 { '1' } else if d == 2 { '2' } else if d == 3 { '3' }
    else if d == 4 { '4' } else if d == 5 { '5' } else if d == 6 { '6' } else if d == 7 { '7' }
    else if d == 8 { '8' } else { '9' }
}

/// Decimal digits of `n`, most significant first.
pub open spec fn digits_of(n: nat) -> Seq<char>
    decreases n,
{
    if n < 10 {
        seq![digit_char(n)]
    } else {
        digits_of(n / 10).push(digit_char(n % 10))
    }
}

/// Decimal text of `n`, with a leading `-` when negative.
pub open spec fn decimal_of(n: int) -> Seq<char> {
    if n < 0 {
        seq!['-'] + digits_of((-n) as nat)
    } else {
        digits_of(n as nat)
    }
}

fn digit_str(d: u64) -> (r: &'static str)
    requires
        d < 10,
    ensures
        r@ == seq![digit_char(d as nat)],
{
    proof {
        reveal_strlit("0");
        reveal_strlit("1");
        reveal_strlit("2");
        reveal_strlit("3");
        reveal_strlit("4");
        reveal_strlit("5");
        reveal_strlit("6");
        reveal_strlit("7");
        reveal_strlit("8");
        reveal_strlit("9");
    }
    if d == 0 { "0" } else if d == 1 { "1" } else if d == 2 { "2" } else if d == 3 { "3" }
    else if d == 4 { "4" } else if d == 5 { "5" } else if d == 6 { "6" } else if d == 7 { "7" }
    else if d == 8 { "8" } else { "9" }
}

fn push_digits(out: &mut String, n: u64)
    ensures
        final(out)@ == old(out)@ + digits_of(n as nat),
    decreases n,
{
    if n >= 10 {
        push_digits(out, n / 10);
    }
    out.append(digit_str(n % 10));
    proof {
        if n >= 10 {
            assert(old(out)@ + digits_of((n / 10) as nat) + seq![digit_char((n % 10) as nat)]
                =~= old(out)@ + digits_of(n as nat));
        } else {
            assert(old(out)@ + seq![digit_char((n % 10) as nat)] =~= old(out)@ + digits_of(n as nat));
        }
    }
}

/// Decimal text of `n`.
pub fn decimal(n: i64) -> (r: String)
    ensures
        r@ == decimal_of(n as int),
{
    let mut r = String::new();
    if n < 0 {
        r.append("-");
        proof {
            reveal_strlit("-");
        }
        let magnitude: u64 = (0i128 - n as i128) as u64;
        push_digits(&mut r, magnitude);
        assert(r@ =~= seq!['-'] + digits_of((-n) as nat));
    } else {
        push_digits(&mut r, n as u64);
        assert(r@ =~= digits_of(n as nat));
    }
    r
}

/// What a rank card shows.
#[derive(Clone, Debug)]
pub struct RankCardData {
    pub username: String,
    pub hex_color: String,
    pub avatar_base64: String,
    pub weekly_xp: i64,
    pub all_time_xp: i64,
    pub weekly_rank: i64,
    pub all_time_rank: i64,
}
pub const CARD_MARKUP_0: &'static str = "
<!DOCTYPE html>
<html>
<head>
    <meta charset=\"UTF-8\">
    <link href=\"https://fonts.googleapis.com/css2?family=Outfit:wght@300;500;700;900&family=Rajdhani:wght@500;700&display=swap\" rel=\"stylesheet\">
    <style>
        * {
            margin: 0;
            padding: 0;
            box-sizing: border-box;
        }
        
        body {
            width: 1000px;
            height: 300px;
            background: transparent;
            overflow: hidden;
            font-family: 'Outfit', sans-serif;
        }
        
        .card-container {
            width: 1000px;
            height: 300px;
            background: linear-gradient(135deg, rgba(20, 20, 30, 0.85) 0%, rgba(10, 10, 20, 0.9) 100%);
            border-radius: 24px;
            border: 2px solid ";
pub const CARD_MARKUP_1: &'static str = ";
            box-shadow: 
                0 0 60px ";
pub const CARD_MARKUP_2: &'static str = "40,
                inset 0 0 60px rgba(255, 255, 255, 0.05),
                0 20px 40px rgba(0, 0, 0, 0.4);
            backdrop-filter: blur(20px);
            -webkit-backdrop-filter: blur(20px);
            display: flex;
            align-items: center;
            padding: 40px;
            position: relative;
            overflow: hidden;
        }
        
        .card-container::before {
            content: '';
            position: absolute;
            top: -50%;
            left: -50%;
            width: 200%;
            height: 200%;
            background: radial-gradient(circle, ";
pub const CARD_MARKUP_3: &'static str = "15 0%, transparent 70%);
            animation: pulse 4s ease-in-out infinite;
        }
        
        @keyframes pulse {
            0%, 100% { transform: scale(1); opacity: 0.5; }
            50% { transform: scale(1.1); opacity: 0.8; }
        }
        
        .avatar-section {
            position: relative;
            width: 200px;
            height: 200px;
            flex-shrink: 0;
            z-index: 1;
        }
        
        .avatar-container {
            width: 200px;
            height: 200px;
            border-radius: 50%;
            overflow: hidden;
            border: 4px solid ";
pub const CARD_MARKUP_4: &'static str = ";
            box-shadow: 0 0 30px ";
pub const CARD_MARKUP_5: &'static str = "60;
        }
        
        .avatar-container img {
            width: 100%;
            height: 100%;
            object-fit: cover;
        }
        
        .info-section {
            flex: 1;
            margin-left: 50px;
            z-index: 1;
            display: flex;
            flex-direction: column;
            justify-content: center;
        }
        
        .display-name {
            font-size: 56px;
            font-weight: 900;
            color: #ffffff;
            text-transform: uppercase;
            letter-spacing: 2px;
            margin-bottom: 40px;
            text-shadow: 0 0 30px ";
pub const CARD_MARKUP_6: &'static str = "80;
            font-family: 'Rajdhani', sans-serif;
            animation: fadeInDown 0.8s ease-out;
        }
        
        @keyframes fadeInDown {
            from {
                opacity: 0;
                transform: translateY(-20px);
            }
            to {
                opacity: 1;
                transform: translateY(0);
            }
        }
        
        .pills-container {
            display: flex;
            gap: 20px;
            animation: fadeInUp 0.8s ease-out 0.4s both;
        }
        
        .pill {
            background: rgba(255, 255, 255, 0.08);
            border-radius: 20px;
            padding: 20px 30px;
            border: 2px solid rgba(255, 255, 255, 0.15);
            flex: 1;
            display: flex;
            flex-direction: column;
            gap: 15px;
            box-shadow: 
                0 4px 20px rgba(0, 0, 0, 0.3),
                inset 0 1px 1px rgba(255, 255, 255, 0.1);
        }
        
        .pill-row {
            display: flex;
            justify-content: space-between;
            align-items: center;
        }
        
        .pill-label {
            font-size: 14px;
            color: rgba(255, 255, 255, 0.6);
            text-transform: uppercase;
            letter-spacing: 1.5px;
            font-weight: 500;
        }
        
        .pill-value {
            font-size: 28px;
            font-weight: 700;
            color: #ffffff;
            font-family: 'Rajdhani', sans-serif;
            text-shadow: 0 0 10px ";
pub const CARD_MARKUP_7: &'static str = "60;
        }
        
        .pill-divider {
            height: 1px;
            background: linear-gradient(90deg, transparent, rgba(255, 255, 255, 0.2), transparent);
        }
        
        @keyframes fadeInUp {
            from {
                opacity: 0;
                transform: translateY(20px);
            }
            to {
                opacity: 1;
                transform: translateY(0);
            }
        }
    </style>
</head>
<body>
    <div class=\"card-container\">
        <div class=\"avatar-section\">
            <div class=\"avatar-container\">
                <img src=\"data:image/png;base64,";
pub const CARD_MARKUP_8: &'static str = "\" alt=\"avatar\"/>
            </div>
        </div>
        
        <div class=\"info-section\">
            <h1 class=\"display-name\">";
pub const CARD_MARKUP_9: &'static str = "</h1>
            
            <div class=\"pills-container\">
                <!-- PILL 1: XP (Weekly / All-Time) -->
                <div class=\"pill\">
                    <div class=\"pill-row\">
                        <span class=\"pill-label\">Weekly</span>
                        <span class=\"pill-value\">";
pub const CARD_MARKUP_10: &'static str = "</span>
                    </div>
                    <div class=\"pill-divider\"></div>
                    <div class=\"pill-row\">
                        <span class=\"pill-label\">Total</span>
                        <span class=\"pill-value\">";
pub const CARD_MARKUP_11: &'static str = "</span>
                    </div>
                </div>
                
                <!-- PILL 2: Rank (Weekly / All-Time) -->
                <div class=\"pill\">
                    <div class=\"pill-row\">
                        <span class=\"pill-label\">W-Rank</span>
                        <span class=\"pill-value\">#";
pub const CARD_MARKUP_12: &'static str = "</span>
                    </div>
                    <div class=\"pill-divider\"></div>
                    <div class=\"pill-row\">
                        <span class=\"pill-label\">T-Rank</span>
                        <span class=\"pill-value\">#";
pub const CARD_MARKUP_13: &'static str = "</span>
                    </div>
                </div>
            </div>
        </div>
    </div>
    
    <script>
        // Ensure animations complete before screenshot
        document.addEventListener('DOMContentLoaded', () => {
            window.cardReady = true;
        });
    </script>
</body>
</html>
";

/// The card's markup with its fields filled in.
pub open spec fn rank_card_markup(
    color: Seq<char>,
    username: Seq<char>,
    avatar: Seq<char>,
    weekly_xp: Seq<char>,
    all_time_xp: Seq<char>,
    weekly_rank: Seq<char>,
    all_time_rank: Seq<char>,
) -> Seq<char> {
    CARD_MARKUP_0@
        + color
        + CARD_MARKUP_1@
        + color
        + CARD_MARKUP_2@
        + color
        + CARD_MARKUP_3@
        + color
        + CARD_MARKUP_4@
        + color
        + CARD_MARKUP_5@
        + color
        + CARD_MARKUP_6@
        + color
        + CARD_MARKUP_7@
        + avatar
        + CARD_MARKUP_8@
        + username
        + CARD_MARKUP_9@
        + weekly_xp
        + CARD_MARKUP_10@
        + all_time_xp
        + CARD_MARKUP_11@
        + weekly_rank
        + CARD_MARKUP_12@
        + all_time_rank
        + CARD_MARKUP_13@
}

/// The markup of a rank card: the color normalised, the name escaped, the
/// numbers in decimal, the avatar embedded as given.
pub fn generate_rank_card_html(data: &RankCardData) -> (r: String)
    ensures
        r@ == rank_card_markup(
            sanitized_hex(data.hex_color@),
            escaped_text(data.username@),
            data.avatar_base64@,
            decimal_of(data.weekly_xp as int),
            decimal_of(data.all_time_xp as int),
            decimal_of(data.weekly_rank as int),
            decimal_of(data.all_time_rank as int),
        ),
{
    let color = sanitize_hex(data.hex_color.as_str());
    let username = encode_text(data.username.as_str());
    let weekly_xp = decimal(data.weekly_xp);
    let all_time_xp = decimal(data.all_time_xp);
    let weekly_rank = decimal(data.weekly_rank);
    let all_time_rank = decimal(data.all_time_rank);
    let avatar = data.avatar_base64.as_str();
    let mut r = String::from_str(CARD_MARKUP_0);
    r.append(color.as_str());
    r.append(CARD_MARKUP_1);
    r.append(color.as_str());
    r.append(CARD_MARKUP_2);
    r.append(color.as_str());
    r.append(CARD_MARKUP_3);
    r.append(color.as_str());
    r.append(CARD_MARKUP_4);
    r.append(color.as_str());
    r.append(CARD_MARKUP_5);
    r.append(color.as_str());
    r.append(CARD_MARKUP_6);
    r.append(color.as_str());
    r.append(CARD_MARKUP_7);
    r.append(avatar);
    r.append(CARD_MARKUP_8);
    r.append(username.as_str());
    r.append(CARD_MARKUP_9);
    r.append(weekly_xp.as_str());
    r.append(CARD_MARKUP_10);
    r.append(all_time_xp.as_str());
    r.append(CARD_MARKUP_11);
    r.append(weekly_rank.as_str());
    r.append(CARD_MARKUP_12);
    r.append(all_time_rank.as_str());
    r.append(CARD_MARKUP_13);
    r
}

} // verus!
