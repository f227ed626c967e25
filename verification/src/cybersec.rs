//! Cybersecurity mode: the assistant's instructions for each mode, its
//! welcome banner, and the catalogues of topics and tools it offers.
use vstd::prelude::*;
use crate::text::{push_str, string_of};

verus! {

/// Settings of a cybersecurity session.
#[derive(Debug, Clone)]
pub struct CybersecConfig {
    pub mode: String,
    pub target: Option<String>,
}

impl Default for CybersecConfig {
    fn default() -> (r: Self)
        ensures
            r.mode@ == "interactive"@,
            r.target is None,
    {
        CybersecConfig { mode: String::from_str("interactive"), target: None }
    }
}

pub const WELCOME_MESSAGE: &'static str = r#"
╔══════════════════════════════════════════════════════════════╗
║          🔐  GOGIT CYBERSECURITY MODE  🔐                  ║
╠══════════════════════════════════════════════════════════════╣
║                                                              ║
║  Welcome to Cybersecurity Mode!                               ║
║                                                              ║
║  I'm your cybersecurity assistant. I can help you with:     ║
║                                                              ║
║  📚 LEARN    - Learn about security vulnerabilities        ║
║               (XSS, SQLi, CSRF, etc.)                      ║
║                                                              ║
║  🔍 RECON    - Passive reconnaissance on targets           ║
║               (DNS, subdomains, tech detection)             ║
║                                                              ║
║  🔎 ANALYZE  - Analyze code for security issues             ║
║               (vulnerability scanning)                      ║
║                                                              ║
║  🏆 CTF      - Help with CTF challenges                    ║
║               (hints, techniques, analysis)                ║
║                                                              ║
║  ⚠️  SAFETY RULES:                                          ║
║      • All commands require your approval                   ║
║      • I only use passive reconnaissance                    ║
║      • Educational purpose only                            ║
║      • Always respect authorization                         ║
║                                                              ║
║  Type your request or question to begin!                    ║
║                                                              ║
╚══════════════════════════════════════════════════════════════╝
"#;

pub const LEARN_OPENING: &'static str = "\nYou are a cybersecurity educator and ethical hacker.\n";

pub const LEARN_GUIDE: &'static str = r#"
## Your Role
- EDUCATIONAL: Teach security concepts thoroughly
- EXPLAIN CONCEPTS: Cover what, why, how of vulnerabilities
- SHOW EXAMPLES: Vulnerable vs secure code
- EXPLOIT EXPLANATION: Show how attacks work (educational)
- DEFENSE: Explain how to fix and prevent

## Guidelines
1. Start with overview of the vulnerability
2. Explain how it works technically
3. Show vulnerable code example
4. Demonstrate the attack (educational)
5. Show secure code example
6. Explain remediation
7. Provide testing resources

## Vulnerability Categories (OWASP Top 10)
- A01:2021 - Broken Access Control
- A02:2021 - Cryptographic Failures  
- A03:2021 - Injection
- A04:2021 - Insecure Design
- A05:2021 - Security Misconfiguration
- A06:2021 - Vulnerable Components
- A07:2021 - Auth Failures
- A08:2021 - Data Integrity Failures
- A09:2021 - Logging Failures
- A10:2021 - SSRF

## Response Format
For each topic:
1. Brief overview
2. Technical explanation
3. Code examples (vulnerable & secure)
4. Testing tips
5. Remediation steps

If asked to run a command, explain it first, wait for approval, then execute.
"#;

pub const RECON_OPENING: &'static str = "\nYou are a cybersecurity reconnaissance expert.\n";

pub const RECON_GUIDE: &'static str = r#"
## Your Role
- PASSIVE RECON: Gather information without touching target
- FOOTPRINTING: Build target profile
- ENUMERATION: Find subdomains, services, technologies
- ANALYSIS: Interpret and correlate findings

## Guidelines
1. ALWAYS start with passive reconnaissance
2. Explain each tool before using it
3. Wait for user approval before executing
4. Analyze output and explain findings
5. Plan next step based on results

## Reconnaissance Phases

### Phase 1: Passive Recon (No direct contact)
- Whois lookup
- DNS enumeration (passive)
- Public records search
- Search engine dorking

### Phase 2: Active Recon (Minimal contact)
- DNS lookups
- HTTP headers analysis
- SSL/TLS analysis
- Technology detection

### Phase 3: Enumeration
- Subdomain enumeration
- Port scanning (if authorized)
- Service identification
- Version detection

## Tools to Use
- whois, dig, nslookup
- curl (headers, SSL)
- nmap (with -sS -sV for version detection)
- whatweb, wappalyzer
- sublist3r, amass (passive)
- crt.sh, certspotter

## Safety Rules
- Never attack without explicit authorization
- Use passive methods first
- Rate limit your requests
- Document findings
- Stay within legal boundaries

If asked to run a command, explain it first, wait for approval, then execute.
"#;

pub const ANALYZE_OPENING: &'static str = "\nYou are a security code analyst and vulnerability researcher.\n";

pub const ANALYZE_GUIDE: &'static str = r#"
## Your Role
- CODE REVIEW: Analyze source code for security issues
- VULN IDENTIFICATION: Find security flaws
- SEVERITY ASSESSMENT: Rate findings
- REMEDIATION: Suggest fixes

## Guidelines
1. Read and understand the code
2. Look for common vulnerability patterns
3. Explain each finding with severity
4. Suggest concrete fixes

## Common Vulnerability Patterns

### Injection (SQL, Command, LDAP, etc.)
```python
# Vulnerable
query = f"SELECT * FROM users WHERE id = {user_input}"

# Secure
query = "SELECT * FROM users WHERE id = ?"
cursor.execute(query, (user_input,))
```

### XSS (Cross-Site Scripting)
```javascript
// Vulnerable  
element.innerHTML = userInput

// Secure
element.textContent = userInput
```

### IDOR (Insecure Direct Object Reference)
```python
# Vulnerable
user = get_user(request.user_id)

# Secure  
user = get_user(request.user_id, current_user)
```

### Path Traversal
```python
# Vulnerable
file = open(request.filename)

# Secure  
file = open(os.path.join(safe_dir, request.filename))
```

### Hardcoded Secrets
```python
# Vulnerable
api_key = "sk-1234567890abcdef"

# Secure
api_key = os.environ.get('API_KEY')
```

## Severity Ratings
- 🔴 CRITICAL: RCE, SQLi, Auth bypass
- 🟠 HIGH: XSS, CSRF, IDOR
- 🟡 MEDIUM: Information disclosure
- 🟢 LOW: Minor issues, best practices

## Response Format
For each vulnerability:
1. Location (file:line)
2. Description
3. Severity
4. Impact
5. Proof of concept (educational)
6. Remediation

If asked to run a command, explain it first, wait for approval, then execute.
"#;

pub const CTF_OPENING: &'static str = "\nYou are a CTF (Capture The Flag) competition expert.\n";

pub const CTF_GUIDE: &'static str = r#"
## Your Role
- HINT GUIDANCE: Help without giving away answers
- TECHNIQUE EXPLANATION: Explain approaches
- TOOL SUGGESTION: Recommend solving tools
- CONCEPT BREAKDOWN: Simplify complex topics

## CTF Categories

### Web Exploitation
- SQL Injection
- XSS (Various types)
- Command Injection
- File Upload vulnerabilities
- JWT attacks
- SSO/OAuth vulnerabilities

### Cryptography
- Classical ciphers (ROT, Caesar, etc.)
- Modern crypto (AES, RSA)
- Hash functions
- Encoding (Base64, Hex, etc.)
- XOR analysis

### Reverse Engineering
- Binary analysis
- Disassembly
- Debugging
- Anti-debugging techniques

### Pwn/Binary Exploitation
- Buffer overflows
- ROP chains
- Format string vulnerabilities
- Heap exploitation

### Forensics
- File carving
- Memory analysis
- Network packet analysis
- Steganography

### OSINT
- Information gathering
- Social media OSINT
- Email harvesting

## Guidelines
1. Ask what they've tried
2. Give hints, not solutions
3. Explain underlying concepts
4. Suggest tools/techniques
5. Guide through approach

## Example Response
Instead of: "The password is 'admin'"
Say: "Have you tried common default credentials? Also, check if there's a password reset function that might reveal information."

## Tools to Recommend
- Web: Burp Suite, sqlmap, nikto
- Crypto: CyberChef, hashcat, john
- Reverse: Ghidra, IDA, objdump
- Forensics: binwalk, strings, volatility

If asked to run a command, explain it first, wait for approval, then execute.
"#;

pub const INTERACTIVE_OPENING: &'static str = "\nYou are a cybersecurity expert and ethical hacker assistant.\n";

pub const INTERACTIVE_GUIDE: &'static str = r#"
## Your Role
- EDUCATIONAL: Teach security concepts clearly
- RECONNAISSANCE: Help with passive information gathering
- CODE ANALYSIS: Find security vulnerabilities in code
- CTF HELP: Guide through challenge problems
- TOOL GUIDANCE: Recommend security tools

## Guidelines
1. Ask what the user wants to learn/do
2. Explain concepts thoroughly
3. Show examples where relevant
4. Always prioritize safety and legality
5. Wait for user approval before executing commands

## Available Modes
- learn: Study security vulnerabilities
- recon: Passive reconnaissance  
- analyze: Code security analysis
- ctf: CTF challenge help

## How I Help

### Learning
"I want to learn about XSS" → I'll explain XSS thoroughly with examples

### Recon
"Scan example.com" → I'll guide through passive recon steps

### Analysis
"Analyze this code" → I'll review for vulnerabilities

### CTF
"Help with this challenge" → I'll guide with hints

## Safety First
- All commands require your approval
- I never execute without explicit permission
- Educational purpose only
- Respect authorization boundaries

What would you like to learn or do today?
"#;

/// The instructions for a mode; any mode other than `learn`, `recon`,
/// `analyze`, and `ctf` gets the interactive ones.
pub open spec fn mode_prompt(mode: Seq<char>) -> Seq<char> {
    if mode == "learn"@ {
        LEARN_OPENING@ + LEARN_GUIDE@
    } else if mode == "recon"@ {
        RECON_OPENING@ + RECON_GUIDE@
    } else if mode == "analyze"@ {
        ANALYZE_OPENING@ + ANALYZE_GUIDE@
    } else if mode == "ctf"@ {
        CTF_OPENING@ + CTF_GUIDE@
    } else {
        INTERACTIVE_OPENING@ + INTERACTIVE_GUIDE@
    }
}

pub struct CybersecMode;

impl CybersecMode {
    pub fn get_system_prompt(mode: &str) -> (r: String)
        ensures
            r@ == mode_prompt(mode@),
    {
        let m = crate::text::chars_of(mode);
        if crate::text::eq_str(&m, "learn") {
            Self::learn_prompt()
        } else if crate::text::eq_str(&m, "recon") {
            Self::recon_prompt()
        } else if crate::text::eq_str(&m, "analyze") {
            Self::analyze_prompt()
        } else if crate::text::eq_str(&m, "ctf") {
            Self::ctf_prompt()
        } else {
            Self::interactive_prompt()
        }
    }

    pub fn get_welcome_message() -> (r: String)
        ensures
            r@ == WELCOME_MESSAGE@,
    {
        String::from_str(WELCOME_MESSAGE)
    }

    pub fn learn_prompt() -> (r: String)
        ensures
            r@ == LEARN_OPENING@ + LEARN_GUIDE@,
    {
        let mut v: Vec<char> = Vec::new();
        push_str(&mut v, LEARN_OPENING);
        push_str(&mut v, LEARN_GUIDE);
        string_of(&v)
    }

    pub fn recon_prompt() -> (r: String)
        ensures
            r@ == RECON_OPENING@ + RECON_GUIDE@,
    {
        let mut v: Vec<char> = Vec::new();
        push_str(&mut v, RECON_OPENING);
        push_str(&mut v, RECON_GUIDE);
        string_of(&v)
    }

    pub fn analyze_prompt() -> (r: String)
        ensures
            r@ == ANALYZE_OPENING@ + ANALYZE_GUIDE@,
    {
        let mut v: Vec<char> = Vec::new();
        push_str(&mut v, ANALYZE_OPENING);
        push_str(&mut v, ANALYZE_GUIDE);
        string_of(&v)
    }

    pub fn ctf_prompt() -> (r: String)
        ensures
            r@ == CTF_OPENING@ + CTF_GUIDE@,
    {
        let mut v: Vec<char> = Vec::new();
        push_str(&mut v, CTF_OPENING);
        push_str(&mut v, CTF_GUIDE);
        string_of(&v)
    }

    pub fn interactive_prompt() -> (r: String)
        ensures
            r@ == INTERACTIVE_OPENING@ + INTERACTIVE_GUIDE@,
    {
        let mut v: Vec<char> = Vec::new();
        push_str(&mut v, INTERACTIVE_OPENING);
        push_str(&mut v, INTERACTIVE_GUIDE);
        string_of(&v)
    }
}

/// The vulnerability topics offered for study, as (key, title).
pub open spec fn security_topics() -> Seq<(Seq<char>, Seq<char>)> {
    seq![
        ("xss"@, "Cross-Site Scripting (XSS)"@),
        ("sqli"@, "SQL Injection"@),
        ("csrf"@, "Cross-Site Request Forgery (CSRF)"@),
        ("idor"@, "Insecure Direct Object Reference (IDOR)"@),
        ("ssrf"@, "Server-Side Request Forgery (SSRF)"@),
        ("jwt"@, "JSON Web Token (JWT) Vulnerabilities"@),
        ("rce"@, "Remote Code Execution"@),
        ("lfi"@, "Local File Inclusion"@),
        ("rfi"@, "Remote File Inclusion"@),
        ("path_traversal"@, "Path Traversal"@),
        ("xxe"@, "XML External Entity (XXE)"@),
        ("deserialization"@, "Insecure Deserialization"@),
        ("auth"@, "Authentication Bypass"@),
        ("oauth"@, "OAuth Vulnerabilities"@),
        ("buffer_overflow"@, "Buffer Overflow"@),
        ("command_injection"@, "Command Injection"@),
        ("ssti"@, "Server-Side Template Injection"@),
        ("race_condition"@, "Race Conditions"@),
        ("info_disclosure"@, "Information Disclosure"@),
        ("broken_access_control"@, "Broken Access Control"@)
    ]
}

/// The security tools the assistant knows, as (name, purpose).
pub open spec fn security_tools() -> Seq<(Seq<char>, Seq<char>)> {
    seq![
        ("nmap"@, "Network scanner"@),
        ("sqlmap"@, "SQL injection tool"@),
        ("nikto"@, "Web server scanner"@),
        ("dirb"@, "Directory scanner"@),
        ("gobuster"@, "Directory/Subdomain enumerator"@),
        ("curl"@, "HTTP client"@),
        ("wireshark"@, "Packet analyzer"@),
        ("burp"@, "Web proxy"@),
        ("hydra"@, "Password cracker"@),
        ("john"@, "Password cracker"@),
        ("hashcat"@, "Hash cracker"@),
        ("ghidra"@, "Reverse engineering"@),
        ("ida"@, "Disassembler"@),
        ("binwalk"@, "Binary analysis"@),
        ("strings"@, "Extract strings"@),
        ("cyberchef"@, "Crypto toolkit"@),
        ("searchsploit"@, "Exploit database"@),
        ("msfconsole"@, "Metasploit"@),
        ("whatweb"@, "Tech detector"@),
        ("sublist3r"@, "Subdomain enum"@)
    ]
}

pub open spec fn pair_views(v: Seq<(&str, &str)>) -> Seq<(Seq<char>, Seq<char>)> {
    v.map_values(|p: (&str, &str)| (p.0@, p.1@))
}

pub struct SecurityTopics;

impl SecurityTopics {
    pub fn get_topics() -> (r: Vec<(&'static str, &'static str)>)
        ensures
            pair_views(r@) == security_topics(),
    {
        let r = vec![
            ("xss", "Cross-Site Scripting (XSS)"),
            ("sqli", "SQL Injection"),
            ("csrf", "Cross-Site Request Forgery (CSRF)"),
            ("idor", "Insecure Direct Object Reference (IDOR)"),
            ("ssrf", "Server-Side Request Forgery (SSRF)"),
            ("jwt", "JSON Web Token (JWT) Vulnerabilities"),
            ("rce", "Remote Code Execution"),
            ("lfi", "Local File Inclusion"),
            ("rfi", "Remote File Inclusion"),
            ("path_traversal", "Path Traversal"),
            ("xxe", "XML External Entity (XXE)"),
            ("deserialization", "Insecure Deserialization"),
            ("auth", "Authentication Bypass"),
            ("oauth", "OAuth Vulnerabilities"),
            ("buffer_overflow", "Buffer Overflow"),
            ("command_injection", "Command Injection"),
            ("ssti", "Server-Side Template Injection"),
            ("race_condition", "Race Conditions"),
            ("info_disclosure", "Information Disclosure"),
            ("broken_access_control", "Broken Access Control"),
        ];
        assert(pair_views(r@) =~= security_topics());
        r
    }

    pub fn get_tools() -> (r: Vec<(&'static str, &'static str)>)
        ensures
            pair_views(r@) == security_tools(),
    {
        let r = vec![
            ("nmap", "Network scanner"),
            ("sqlmap", "SQL injection tool"),
            ("nikto", "Web server scanner"),
            ("dirb", "Directory scanner"),
            ("gobuster", "Directory/Subdomain enumerator"),
            ("curl", "HTTP client"),
            ("wireshark", "Packet analyzer"),
            ("burp", "Web proxy"),
            ("hydra", "Password cracker"),
            ("john", "Password cracker"),
            ("hashcat", "Hash cracker"),
            ("ghidra", "Reverse engineering"),
            ("ida", "Disassembler"),
            ("binwalk", "Binary analysis"),
            ("strings", "Extract strings"),
            ("cyberchef", "Crypto toolkit"),
            ("searchsploit", "Exploit database"),
            ("msfconsole", "Metasploit"),
            ("whatweb", "Tech detector"),
            ("sublist3r", "Subdomain enum"),
        ];
        assert(pair_views(r@) =~= security_tools());
        r
    }
}

/// Every mode name other than `learn`, `recon`, `analyze` and `ctf` (case
/// counts) gets the interactive prompt.
pub proof fn lemma_other_modes_interactive(mode: Seq<char>)
    requires
        mode != "learn"@,
        mode != "recon"@,
        mode != "analyze"@,
        mode != "ctf"@,
    ensures
        mode_prompt(mode) == mode_prompt("interactive"@),
{
    reveal_strlit("learn");
    reveal_strlit("recon");
    reveal_strlit("analyze");
    reveal_strlit("ctf");
    reveal_strlit("interactive");
    assert("learn"@[0] == 'l' && "recon"@[0] == 'r' && "analyze"@[0] == 'a' && "ctf"@[0] == 'c'
        && "interactive"@[0] == 'i');
}

/// The five modes have five different prompts.
pub proof fn lemma_mode_prompts_differ()
    ensures
        mode_prompt("learn"@) != mode_prompt("recon"@),
        mode_prompt("learn"@) != mode_prompt("analyze"@),
        mode_prompt("learn"@) != mode_prompt("ctf"@),
        mode_prompt("learn"@) != mode_prompt("interactive"@),
        mode_prompt("recon"@) != mode_prompt("analyze"@),
        mode_prompt("recon"@) != mode_prompt("ctf"@),
        mode_prompt("recon"@) != mode_prompt("interactive"@),
        mode_prompt("analyze"@) != mode_prompt("ctf"@),
        mode_prompt("analyze"@) != mode_prompt("interactive"@),
        mode_prompt("ctf"@) != mode_prompt("interactive"@),
{
    reveal_strlit("learn");
    reveal_strlit("recon");
    reveal_strlit("analyze");
    reveal_strlit("ctf");
    reveal_strlit("interactive");
    assert("learn"@[0] == 'l' && "recon"@[0] == 'r' && "analyze"@[0] == 'a' && "ctf"@[0] == 'c'
        && "interactive"@[0] == 'i');
    let l = "\nYou are a cybersecurity educator and ethical hacker.\n"@;
    let r = "\nYou are a cybersecurity reconnaissance expert.\n"@;
    let a = "\nYou are a security code analyst and vulnerability researcher.\n"@;
    let c = "\nYou are a CTF (Capture The Flag) competition expert.\n"@;
    let i = "\nYou are a cybersecurity expert and ethical hacker assistant.\n"@;
    reveal_strlit("\nYou are a cybersecurity educator and ethical hacker.\n");
    reveal_strlit("\nYou are a cybersecurity reconnaissance expert.\n");
    reveal_strlit("\nYou are a security code analyst and vulnerability researcher.\n");
    reveal_strlit("\nYou are a CTF (Capture The Flag) competition expert.\n");
    reveal_strlit("\nYou are a cybersecurity expert and ethical hacker assistant.\n");
    assert(mode_prompt("learn"@) == l + LEARN_GUIDE@);
    assert(mode_prompt("recon"@) == r + RECON_GUIDE@);
    assert(mode_prompt("analyze"@) == a + ANALYZE_GUIDE@);
    assert(mode_prompt("ctf"@) == c + CTF_GUIDE@);
    assert(mode_prompt("interactive"@) == i + INTERACTIVE_GUIDE@);
    assert((l + LEARN_GUIDE@)[11] == 'c' && (l + LEARN_GUIDE@)[25] == 'e' && (l + LEARN_GUIDE@)[26] == 'd');
    assert((r + RECON_GUIDE@)[11] == 'c' && (r + RECON_GUIDE@)[25] == 'r');
    assert((a + ANALYZE_GUIDE@)[11] == 's');
    assert((c + CTF_GUIDE@)[11] == 'C');
    assert((i + INTERACTIVE_GUIDE@)[11] == 'c' && (i + INTERACTIVE_GUIDE@)[25] == 'e' && (i + INTERACTIVE_GUIDE@)[26] == 'x');
}

} // verus!
